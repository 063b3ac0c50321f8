//! The view record, the request that creates one, and the rules a request
//! must meet before anything is written.

use vstd::prelude::*;
use vstd::string::*;

use crate::errors::{ErrorTypes, PerseError};

verus! {

/// Who may reach a view through the public lookups.
#[derive(Clone, Copy, Debug, PartialEq, Eq, Structural)]
pub enum ViewVisibilityTypes {
    VisibilityPublic,
    VisibilityUnlisted,
    VisibilityHidden,
}

/// The name under which each visibility is written and parsed.
pub open spec fn visibility_name(v: ViewVisibilityTypes) -> Seq<char> {
    match v {
        ViewVisibilityTypes::VisibilityPublic => "VisibilityPublic"@,
        ViewVisibilityTypes::VisibilityUnlisted => "VisibilityUnlisted"@,
        ViewVisibilityTypes::VisibilityHidden => "VisibilityHidden"@,
    }
}

/// Whether two texts hold the same characters.
pub fn same_text(a: &str, b: &str) -> (r: bool)
    ensures
        r == (a@ == b@),
{
    let n = a.unicode_len();
    if n != b.unicode_len() {
        return false;
    }
    let mut i: usize = 0;
    while i < n
        invariant
            n == a@.len(),
            n == b@.len(),
            i <= n,
            a@.subrange(0, i as int) == b@.subrange(0, i as int),
        decreases n - i,
    {
        if a.get_char(i) != b.get_char(i) {
            return false;
        }
        assert(a@.subrange(0, i + 1) == a@.subrange(0, i as int).push(a@[i as int]));
        assert(b@.subrange(0, i + 1) == b@.subrange(0, i as int).push(b@[i as int]));
        i = i + 1;
    }
    assert(a@ == a@.subrange(0, n as int));
    assert(b@ == b@.subrange(0, n as int));
    true
}

impl ViewVisibilityTypes {
    /// The name of this visibility.
    pub fn as_str(&self) -> (r: &'static str)
        ensures
            r@ == visibility_name(*self),
    {
        match self {
            ViewVisibilityTypes::VisibilityPublic => "VisibilityPublic",
            ViewVisibilityTypes::VisibilityUnlisted => "VisibilityUnlisted",
            ViewVisibilityTypes::VisibilityHidden => "VisibilityHidden",
        }
    }

    /// Reads a visibility from its name; any other text is a `Conflict`.
    pub fn parse(s: &str) -> (r: Result<ViewVisibilityTypes, PerseError>)
        ensures
            match r {
                Ok(v) => visibility_name(v) == s@,
                Err(e) => e.error_type == ErrorTypes::Conflict && forall|v: ViewVisibilityTypes|
                    visibility_name(v) != s@,
            },
    {
        if same_text(s, "VisibilityPublic") {
            Ok(ViewVisibilityTypes::VisibilityPublic)
        } else if same_text(s, "VisibilityUnlisted") {
            Ok(ViewVisibilityTypes::VisibilityUnlisted)
        } else if same_text(s, "VisibilityHidden") {
            Ok(ViewVisibilityTypes::VisibilityHidden)
        } else {
            Err(PerseError::new(ErrorTypes::Conflict, "Unknown view visibility"))
        }
    }
}

/// The mathematical content of a stored view.
pub struct ViewRecord {
    pub id: Option<u128>,
    pub created_at: Option<i64>,
    pub updated_at: Option<i64>,
    pub visibility: ViewVisibilityTypes,
    pub title: Seq<char>,
    pub content_body: Option<Seq<char>>,
    pub content_head: Option<Seq<char>>,
    pub description: Option<Seq<char>>,
    pub route: Seq<char>,
    pub is_homepage: bool,
}

/// A routable content page.
///
/// `id` is assigned by the store on creation; `created_at` and `updated_at`
/// are seconds since the Unix epoch, set by the store.
#[derive(Debug)]
pub struct PerseView {
    pub id: Option<u128>,
    pub created_at: Option<i64>,
    pub updated_at: Option<i64>,
    pub visibility: ViewVisibilityTypes,
    pub title: String,
    pub content_body: Option<String>,
    pub content_head: Option<String>,
    pub description: Option<String>,
    pub route: String,
    pub is_homepage: bool,
}

/// A copy of an optional text.
pub fn copy_text(o: &Option<String>) -> (r: Option<String>)
    ensures
        r.deep_view() == o.deep_view(),
{
    match o {
        Some(t) => Some(t.clone()),
        None => None,
    }
}

impl PerseView {
    /// What this view holds, as mathematical values.
    pub open spec fn record(&self) -> ViewRecord {
        ViewRecord {
            id: self.id,
            created_at: self.created_at,
            updated_at: self.updated_at,
            visibility: self.visibility,
            title: self.title@,
            content_body: self.content_body.deep_view(),
            content_head: self.content_head.deep_view(),
            description: self.description.deep_view(),
            route: self.route@,
            is_homepage: self.is_homepage,
        }
    }

    /// A field-by-field copy of this view.
    pub fn copy(&self) -> (r: PerseView)
        ensures
            r.record() == self.record(),
    {
        PerseView {
            id: self.id,
            created_at: self.created_at,
            updated_at: self.updated_at,
            visibility: self.visibility,
            title: self.title.clone(),
            content_body: copy_text(&self.content_body),
            content_head: copy_text(&self.content_head),
            description: copy_text(&self.description),
            route: self.route.clone(),
            is_homepage: self.is_homepage,
        }
    }
}

impl Default for PerseView {
    /// A hidden view with no identity, empty title and route, and no
    /// optional content.
    fn default() -> (r: PerseView)
        ensures
            r.id is None,
            r.created_at is None,
            r.updated_at is None,
            r.visibility == ViewVisibilityTypes::VisibilityHidden,
            r.title@ == Seq::<char>::empty(),
            r.content_body is None,
            r.content_head is None,
            r.description is None,
            r.route@ == Seq::<char>::empty(),
            !r.is_homepage,
    {
        PerseView {
            id: None,
            created_at: None,
            updated_at: None,
            visibility: ViewVisibilityTypes::VisibilityHidden,
            title: String::new(),
            content_body: None,
            content_head: None,
            description: None,
            route: String::new(),
            is_homepage: false,
        }
    }
}

/// A request to create a view. `route` is the suggested route;
/// `is_homepage` is the form's checkbox, present when ticked.
#[derive(Debug)]
pub struct CreateView {
    pub visibility: ViewVisibilityTypes,
    pub title: String,
    pub content_body: Option<String>,
    pub content_head: Option<String>,
    pub description: Option<String>,
    pub route: String,
    pub is_homepage: Option<String>,
}

/// The bounds on a text field's length, in characters.
pub const MIN_FIELD_LEN: u64 = 1;
pub const MAX_FIELD_LEN: u64 = 255;

/// A required text field meets the length bounds.
pub open spec fn length_ok(s: Seq<char>) -> bool {
    MIN_FIELD_LEN <= s.len() && s.len() <= MAX_FIELD_LEN
}

/// An optional text field is absent or meets the length bounds.
pub open spec fn optional_ok(s: Option<Seq<char>>) -> bool {
    match s {
        Some(t) => length_ok(t),
        None => true,
    }
}

/// The text `" name"` when a field is out of bounds, else nothing.
pub open spec fn flag_field(ok: bool, name: Seq<char>) -> Seq<char> {
    if ok {
        Seq::<char>::empty()
    } else {
        " "@ + name
    }
}

/// Relies on validator::validate_length: with `min` and `max` given and no
/// exact length, it holds when the number of characters lies in
/// `[min, max]`.
#[verifier::external_body]
fn length_within(s: &String, min: u64, max: u64) -> (r: bool)
    ensures
        r == (min <= s@.len() && s@.len() <= max),
{
    validator::validate_length(s, Some(min), Some(max), None)
}

/// Whether an optional field is absent or meets the length bounds.
fn optional_within(s: &Option<String>) -> (r: bool)
    ensures
        r == optional_ok(s.deep_view()),
{
    match s {
        Some(t) => length_within(t, MIN_FIELD_LEN, MAX_FIELD_LEN),
        None => true,
    }
}

/// Appends `" name"` to `out` when `ok` is false.
fn note_field(out: &mut String, ok: bool, name: &str)
    ensures
        final(out)@ == old(out)@ + flag_field(ok, name@),
{
    if !ok {
        out.append(" ");
        out.append(name);
    }
}

impl CreateView {
    /// Whether the checkbox marks the new view as the homepage.
    pub open spec fn wants_homepage(&self) -> bool {
        self.is_homepage is Some
    }

    /// Every length rule holds.
    pub open spec fn valid(&self) -> bool {
        &&& length_ok(self.title@)
        &&& optional_ok(self.content_body.deep_view())
        &&& optional_ok(self.content_head.deep_view())
        &&& optional_ok(self.description.deep_view())
        &&& length_ok(self.route@)
    }

    /// The names of the fields that break a rule, each after a space.
    pub open spec fn invalid_fields(&self) -> Seq<char> {
        flag_field(length_ok(self.title@), "title"@)
            + flag_field(optional_ok(self.content_body.deep_view()), "content_body"@)
            + flag_field(optional_ok(self.content_head.deep_view()), "content_head"@)
            + flag_field(optional_ok(self.description.deep_view()), "description"@)
            + flag_field(length_ok(self.route@), "route"@)
    }

    /// Checks the length rules; on failure the `Validation` error lists the
    /// fields that break them.
    pub fn validate(&self) -> (r: Result<(), PerseError>)
        ensures
            r is Ok <==> self.valid(),
            r matches Err(e) ==> e.error_type == ErrorTypes::Validation && e.data@ == crate::errors::error_text(
                ErrorTypes::Validation,
                "Fields out of length bounds:"@ + self.invalid_fields(),
            ),
    {
        let title = length_within(&self.title, MIN_FIELD_LEN, MAX_FIELD_LEN);
        let body = optional_within(&self.content_body);
        let head = optional_within(&self.content_head);
        let description = optional_within(&self.description);
        let route = length_within(&self.route, MIN_FIELD_LEN, MAX_FIELD_LEN);
        if title && body && head && description && route {
            return Ok(());
        }
        let mut message = String::from_str("Fields out of length bounds:");
        note_field(&mut message, title, "title");
        note_field(&mut message, body, "content_body");
        note_field(&mut message, head, "content_head");
        note_field(&mut message, description, "description");
        note_field(&mut message, route, "route");
        assert(message@ == "Fields out of length bounds:"@ + self.invalid_fields());
        Err(PerseError::new(ErrorTypes::Validation, message.as_str()))
    }
}

impl From<CreateView> for PerseView {
    /// The view a request describes, before the store assigns its identity
    /// and timestamps.
    fn from(view: CreateView) -> (r: PerseView) {
        let is_homepage = view.is_homepage.is_some();
        PerseView {
            id: None,
            created_at: None,
            updated_at: None,
            visibility: view.visibility,
            title: view.title,
            content_body: view.content_body,
            content_head: view.content_head,
            description: view.description,
            route: view.route,
            is_homepage,
        }
    }
}

impl vstd::std_specs::convert::FromSpecImpl<CreateView> for PerseView {
    open spec fn obeys_from_spec() -> bool {
        true
    }

    open spec fn from_spec(view: CreateView) -> PerseView {
        PerseView {
            id: None,
            created_at: None,
            updated_at: None,
            visibility: view.visibility,
            title: view.title,
            content_body: view.content_body,
            content_head: view.content_head,
            description: view.description,
            route: view.route,
            is_homepage: view.is_homepage is Some,
        }
    }
}

} // verus!
