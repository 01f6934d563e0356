//! Identifiers by which a resource is named in a request: a UUID or a
//! slug.

use vstd::prelude::*;
use vstd::string::StrSliceExecFns;

verus! {

/// Why a request on the model fails.
#[derive(Clone, Copy, Debug, PartialEq, Eq)]
pub enum ApiError {
    /// The resource identifier is neither a UUID nor a slug.
    ResourceId,
    /// No row is selected.
    NotFound,
    /// A stored identifier is not a UUID.
    Uuid,
    /// A stored name is empty.
    Name,
    /// A stored slug is not a slug.
    Slug,
    /// A project that is not public cannot be created.
    CreatePrivateProject,
    /// The plan of the organization is not active.
    InactivePlanOrganization,
    /// The organization has a subscription, and no biller is configured.
    NoBillerOrganization,
    /// The organization has neither a subscription nor a license.
    NoPlanOrganization,
    /// The license of the organization is not valid.
    License,
}

/// The name of a resource in a request, as it was written.
#[derive(Clone, Debug, PartialEq, Eq)]
pub struct ResourceId(pub String);

/// The column by which a resource identifier selects a row, with the value
/// to look for.
#[derive(Clone, Debug, PartialEq, Eq)]
pub enum ResourceFilter {
    /// The identifier column, with a UUID in hyphenated form.
    Uuid(String),
    /// The slug column.
    Slug(String),
}

/// What a filter selects by, as plain text.
pub enum FilterView {
    Uuid(Seq<char>),
    Slug(Seq<char>),
}

impl View for ResourceFilter {
    type V = FilterView;

    open spec fn view(&self) -> FilterView {
        match self {
            ResourceFilter::Uuid(uuid) => FilterView::Uuid(uuid@),
            ResourceFilter::Slug(slug) => FilterView::Slug(slug@),
        }
    }
}

/// The hyphenated lower-case form of the UUID that a text is parsed to, in
/// any of the forms that the parser reads; `None` for a text that is not
/// parsed.
pub uninterp spec fn uuid_hyphenated(text: Seq<char>) -> Option<Seq<char>>;

/// Parses a UUID and writes it out in hyphenated form.
///
/// Wraps `Uuid::parse_str` of the uuid crate, followed by the `Display` of
/// what it returns. Nothing is claimed of the result but that it is the
/// same for the same text.
#[verifier::external_body]
pub(crate) fn canonical_uuid(text: &str) -> (parsed: Option<String>)
    ensures
        match parsed {
            Some(uuid) => uuid_hyphenated(text@) == Some(uuid@),
            None => uuid_hyphenated(text@).is_none(),
        },
{
    match uuid::Uuid::parse_str(text) {
        Ok(uuid) => Some(uuid.to_string()),
        Err(_) => None,
    }
}

/// Draws a random UUID and writes it out in hyphenated form.
///
/// Wraps `Uuid::new_v4` of the uuid crate, followed by the `Display` of
/// what it returns: 32 hexadecimal digits in five groups, 36 characters
/// with the hyphens.
#[verifier::external_body]
pub(crate) fn random_uuid() -> (uuid: String)
    ensures
        uuid@.len() == 36,
{
    uuid::Uuid::new_v4().to_string()
}

/// Whether a character may stand in a slug.
pub open spec fn is_slug_char(c: char) -> bool {
    ('a' <= c <= 'z') || ('0' <= c <= '9') || c == '-'
}

/// Whether a text is a slug: lower-case letters, digits and single hyphens
/// between them.
pub open spec fn is_slug(text: Seq<char>) -> bool {
    &&& text.len() > 0
    &&& forall|i: int| 0 <= i < text.len() ==> is_slug_char(#[trigger] text[i])
    &&& text[0] != '-'
    &&& text[text.len() - 1] != '-'
    &&& forall|i: int| 0 <= i < text.len() - 1 ==> !(#[trigger] text[i] == '-' && text[i + 1] == '-')
}

/// The filter that a resource identifier stands for, given what it parsed
/// to as a UUID.
pub open spec fn spec_filter(text: Seq<char>, parsed: Option<Seq<char>>) -> Result<
    FilterView,
    ApiError,
> {
    match parsed {
        Some(uuid) => Ok(FilterView::Uuid(uuid)),
        None => if is_slug(text) {
            Ok(FilterView::Slug(text))
        } else {
            Err(ApiError::ResourceId)
        },
    }
}

/// The text of a parsed identifier, where there is one.
pub open spec fn text_of(parsed: Option<String>) -> Option<Seq<char>> {
    match parsed {
        Some(uuid) => Some(uuid@),
        None => None,
    }
}

/// Whether a result is the filter, or the error, that was expected.
pub open spec fn is_filter(
    result: Result<ResourceFilter, ApiError>,
    expected: Result<FilterView, ApiError>,
) -> bool {
    match result {
        Ok(filter) => expected == Ok::<FilterView, ApiError>(filter@),
        Err(e) => expected == Err::<FilterView, ApiError>(e),
    }
}

/// Tells whether a text is not empty.
pub fn check_non_empty(text: &str) -> (ok: bool)
    ensures
        ok == (text@.len() > 0),
{
    !text.is_empty()
}

/// Tells whether a text is a slug.
pub fn check_slug(text: &str) -> (ok: bool)
    ensures
        ok == is_slug(text@),
{
    if !text.is_ascii() {
        proof {
            let i = choose|i: int| 0 <= i < text@.len() && !('\0' <= #[trigger] text@[i] <= '\u{7f}');
            assert(!is_slug_char(text@[i]));
        }
        return false;
    }
    let n: usize = text.unicode_len();
    if n == 0 {
        return false;
    }
    let mut i: usize = 0;
    let mut after_hyphen: bool = true;
    while i < n
        invariant
            n == text@.len(),
            text.is_ascii(),
            0 <= i <= n,
            after_hyphen == (i == 0 || text@[i as int - 1] == '-'),
            forall|j: int| 0 <= j < i ==> is_slug_char(#[trigger] text@[j]),
            i > 0 ==> text@[0] != '-',
            forall|j: int| 0 <= j < i as int - 1 ==> !(#[trigger] text@[j] == '-' && text@[j + 1] == '-'),
        decreases n - i,
    {
        let b: u8 = text.get_ascii(i);
        let lower: bool = 97 <= b && b <= 122;
        let digit: bool = 48 <= b && b <= 57;
        let hyphen: bool = b == 45;
        proof {
            let c = text@[i as int];
            assert('\0' <= c <= '\u{7f}');
            assert(c as u8 == b);
            assert(is_slug_char(c) == (lower || digit || hyphen));
            assert((c == '-') == hyphen);
        }
        if !(lower || digit || hyphen) {
            return false;
        }
        if hyphen && after_hyphen {
            proof {
                if i > 0 {
                    assert(text@[i as int - 1] == '-' && text@[i as int - 1 + 1] == '-');
                }
            }
            return false;
        }
        after_hyphen = hyphen;
        i = i + 1;
    }
    !after_hyphen
}

/// The filter that a resource identifier stands for, given what it parsed
/// to as a UUID: the identifier column where it parsed, the slug column
/// where it did not and is a slug.
pub fn filter_of(text: &String, parsed: Option<String>) -> (result: Result<ResourceFilter, ApiError>)
    ensures
        is_filter(result, spec_filter(text@, text_of(parsed))),
{
    match parsed {
        Some(uuid) => Ok(ResourceFilter::Uuid(uuid)),
        None => {
            if check_slug(text.as_str()) {
                Ok(ResourceFilter::Slug(text.clone()))
            } else {
                Err(ApiError::ResourceId)
            }
        },
    }
}

impl ResourceId {
    /// The filter that the identifier stands for.
    pub open spec fn filter(&self) -> Result<FilterView, ApiError> {
        spec_filter(self.0@, uuid_hyphenated(self.0@))
    }

    /// Works out the filter that the identifier stands for.
    pub fn to_filter(&self) -> (result: Result<ResourceFilter, ApiError>)
        ensures
            is_filter(result, self.filter()),
    {
        let parsed = canonical_uuid(self.0.as_str());
        filter_of(&self.0, parsed)
    }
}

} // verus!
