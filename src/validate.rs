//! Request bodies and the field rules they must satisfy.
use vstd::prelude::*;
use crate::model::{ApiError, CollectionStatus};

verus! {

/// Shortest title or description.
pub const MIN_TEXT_LEN: u64 = 3;
/// Longest title.
pub const MAX_TITLE_LEN: u64 = 64;
/// Longest description.
pub const MAX_DESCRIPTION_LEN: u64 = 255;
/// Most projects a new collection may start with.
pub const MAX_INITIAL_PROJECTS: usize = 32;
/// Most projects a membership edit may name.
pub const MAX_EDIT_PROJECTS: usize = 64;

/// What `str::trim` returns for a text.
pub uninterp spec fn trimmed_of(s: Seq<char>) -> Seq<char>;

/// Relies on `str::trim`: leading and trailing white space removed; the
/// result depends on the characters alone.
#[verifier::external_body]
pub(crate) fn trim(s: &str) -> (r: String)
    ensures
        r@ == trimmed_of(s@),
        s@.len() == 0 ==> r@.len() == 0,
{
    s.trim().to_string()
}

/// Relies on `validator::validate_length` with a lower and an upper bound:
/// a text's length is its number of chars.
#[verifier::external_body]
fn length_within(s: &str, min: u64, max: u64) -> (r: bool)
    ensures
        r == (min <= s@.len() && s@.len() <= max),
{
    validator::validate_length(s, Some(min), Some(max), None)
}

/// A title: of bounded length, and not white space alone.
pub open spec fn valid_title(s: Seq<char>) -> bool {
    MIN_TEXT_LEN <= s.len() <= MAX_TITLE_LEN && trimmed_of(s).len() > 0
}

pub open spec fn valid_description(s: Seq<char>) -> bool {
    MIN_TEXT_LEN <= s.len() <= MAX_DESCRIPTION_LEN
}

pub fn validate_title(s: &String) -> (r: bool)
    ensures
        r == valid_title(s@),
{
    if !length_within(s.as_str(), MIN_TEXT_LEN, MAX_TITLE_LEN) {
        return false;
    }
    let t = trim(s.as_str());
    t.as_str().unicode_len() > 0
}

pub fn validate_description(s: &String) -> (r: bool)
    ensures
        r == valid_description(s@),
{
    length_within(s.as_str(), MIN_TEXT_LEN, MAX_DESCRIPTION_LEN)
}

/// Body of a request that creates a collection.
pub struct CollectionCreateData {
    /// The title or name of the collection.
    pub title: String,
    /// A short description of the collection.
    pub description: String,
    /// Identifiers of the projects the collection starts with.
    pub projects: Vec<String>,
}

impl CollectionCreateData {
    pub open spec fn spec_valid(&self) -> bool {
        valid_title(self.title@) && valid_description(self.description@) && self.projects.len()
            <= MAX_INITIAL_PROJECTS
    }

    pub fn validate(&self) -> (r: Result<(), ApiError>)
        ensures
            r is Ok <==> self.spec_valid(),
            r is Err ==> r == Err::<(), ApiError>(ApiError::Validation),
    {
        if validate_title(&self.title) && validate_description(&self.description)
            && self.projects.len() <= MAX_INITIAL_PROJECTS {
            Ok(())
        } else {
            Err(ApiError::Validation)
        }
    }
}

/// Body of a request that edits a collection; absent fields stay as they are.
pub struct EditCollection {
    pub title: Option<String>,
    pub description: Option<String>,
    pub status: Option<CollectionStatus>,
    /// The complete new membership, replacing the old one.
    pub new_projects: Option<Vec<String>>,
}

impl EditCollection {
    pub open spec fn spec_valid(&self) -> bool {
        &&& (self.title matches Some(t) ==> valid_title(t@))
        &&& (self.description matches Some(d) ==> valid_description(d@))
        &&& (self.new_projects matches Some(p) ==> p.len() <= MAX_EDIT_PROJECTS)
    }

    pub fn validate(&self) -> (r: Result<(), ApiError>)
        ensures
            r is Ok <==> self.spec_valid(),
            r is Err ==> r == Err::<(), ApiError>(ApiError::Validation),
    {
        if let Some(t) = &self.title {
            if !validate_title(t) {
                return Err(ApiError::Validation);
            }
        }
        if let Some(d) = &self.description {
            if !validate_description(d) {
                return Err(ApiError::Validation);
            }
        }
        if let Some(p) = &self.new_projects {
            if p.len() > MAX_EDIT_PROJECTS {
                return Err(ApiError::Validation);
            }
        }
        Ok(())
    }
}

/// File extension of an uploaded icon.
pub struct Extension {
    pub ext: String,
}

/// A list of collection identifiers, written as a JSON array of strings.
pub struct CollectionIds {
    pub ids: String,
}

/// Whether two texts hold the same characters.
pub fn str_eq(a: &str, b: &str) -> (r: bool)
    ensures
        r == (a@ == b@),
{
    let n = a.unicode_len();
    if n != b.unicode_len() {
        return false;
    }
    let mut i: usize = 0;
    while i < n
        invariant
            n == a@.len(),
            n == b@.len(),
            i <= n,
            forall|j: int| 0 <= j < i ==> a@[j] == b@[j],
        decreases n - i,
    {
        if a.get_char(i) != b.get_char(i) {
            return false;
        }
        i = i + 1;
    }
    assert(a@ =~= b@);
    true
}

/// Content type of an image with the given file extension, for the
/// extensions accepted as icons.
pub open spec fn image_content_type(ext: Seq<char>) -> Option<Seq<char>> {
    if ext == "bmp"@ {
        Some("image/bmp"@)
    } else if ext == "gif"@ {
        Some("image/gif"@)
    } else if ext == "jpeg"@ || ext == "jpg"@ {
        Some("image/jpeg"@)
    } else if ext == "png"@ {
        Some("image/png"@)
    } else if ext == "webp"@ {
        Some("image/webp"@)
    } else {
        None
    }
}

pub fn get_image_content_type(ext: &str) -> (r: Option<String>)
    ensures
        crate::model::opt_str_view(r) == image_content_type(ext@),
{
    if str_eq(ext, "bmp") {
        Some(String::from_str("image/bmp"))
    } else if str_eq(ext, "gif") {
        Some(String::from_str("image/gif"))
    } else if str_eq(ext, "jpeg") || str_eq(ext, "jpg") {
        Some(String::from_str("image/jpeg"))
    } else if str_eq(ext, "png") {
        Some(String::from_str("image/png"))
    } else if str_eq(ext, "webp") {
        Some(String::from_str("image/webp"))
    } else {
        None
    }
}

} // verus!
