use vstd::prelude::*;

verus! {

/// The closed set of kinds a paste can have.
#[derive(Clone, Copy, Debug, PartialEq, Eq, Structural)]
pub enum PasteCategory {
    Markdown,
    Plaintext,
    Html,
    File,
    Url,
}

/// Raised when a text names none of the five categories.
#[derive(Clone, Debug)]
pub struct UnknownCategory {
    /// The text that was offered, as it was given.
    pub text: String,
}

/// The lowercase form of a text, as Unicode defines it.
pub uninterp spec fn lower_of(s: Seq<char>) -> Seq<char>;

/// True when every character is an ASCII lowercase letter.
pub open spec fn is_ascii_lower(s: Seq<char>) -> bool {
    forall|i: int| 0 <= i < s.len() ==> 'a' <= #[trigger] s[i] && s[i] <= 'z'
}

/// Relies on `str::to_lowercase`: the result depends on the characters alone,
/// and a letter `a`..=`z` is its own lowercase form.
#[verifier::external_body]
fn lowercase(s: &str) -> (r: String)
    ensures
        r@ == lower_of(s@),
        is_ascii_lower(s@) ==> r@ == s@,
{
    s.to_lowercase()
}

/// The canonical (lowercase) name of a category.
pub open spec fn name_of(c: PasteCategory) -> Seq<char> {
    match c {
        PasteCategory::Markdown => "markdown"@,
        PasteCategory::Plaintext => "plaintext"@,
        PasteCategory::Html => "html"@,
        PasteCategory::File => "file"@,
        PasteCategory::Url => "url"@,
    }
}

/// The category whose canonical name is exactly `s`, if any.
pub open spec fn category_named(s: Seq<char>) -> Option<PasteCategory> {
    if s == name_of(PasteCategory::Markdown) {
        Some(PasteCategory::Markdown)
    } else if s == name_of(PasteCategory::Plaintext) {
        Some(PasteCategory::Plaintext)
    } else if s == name_of(PasteCategory::Html) {
        Some(PasteCategory::Html)
    } else if s == name_of(PasteCategory::File) {
        Some(PasteCategory::File)
    } else if s == name_of(PasteCategory::Url) {
        Some(PasteCategory::Url)
    } else {
        None
    }
}

/// The category that `text` names, case-insensitively, if any.
pub open spec fn parse_spec(text: Seq<char>) -> Option<PasteCategory> {
    category_named(lower_of(text))
}

/// What reading `value` as a category yields: the category it names, or an
/// error carrying the text; a text already in lowercase ASCII is read as is.
pub open spec fn parse_outcome(value: Seq<char>, r: Result<PasteCategory, UnknownCategory>) -> bool {
    &&& match r {
        Ok(c) => parse_spec(value) == Some(c),
        Err(e) => parse_spec(value) is None && e.text@ == value,
    }
    &&& is_ascii_lower(value) ==> lower_of(value) == value
}

impl PasteCategory {
    /// The canonical name of this category, as an owned string.
    pub fn into(self) -> (r: String)
        ensures
            r@ == name_of(self),
    {
        let s = match self {
            PasteCategory::Markdown => "markdown",
            PasteCategory::Plaintext => "plaintext",
            PasteCategory::Html => "html",
            PasteCategory::File => "file",
            PasteCategory::Url => "url",
        };
        String::from_str(s)
    }

    /// The category whose canonical name is exactly `name`; names differing
    /// only in case are not matched here.
    pub fn from_canonical_name(name: &String) -> (r: Option<PasteCategory>)
        ensures
            r == category_named(name@),
    {
        let cats = [
            PasteCategory::Markdown,
            PasteCategory::Plaintext,
            PasteCategory::Html,
            PasteCategory::File,
            PasteCategory::Url,
        ];
        let mut i: usize = 0;
        while i < 5
            invariant
                0 <= i <= 5,
                cats@ == seq![
                    PasteCategory::Markdown,
                    PasteCategory::Plaintext,
                    PasteCategory::Html,
                    PasteCategory::File,
                    PasteCategory::Url,
                ],
                forall|j: int| 0 <= j < i ==> name@ != name_of(#[trigger] cats@[j]),
            decreases 5 - i,
        {
            let candidate = cats[i].into();
            if *name == candidate {
                return Some(cats[i]);
            }
            i = i + 1;
        }
        None
    }

    /// Reads a category from its name, ignoring case.
    pub fn try_from(value: String) -> (r: Result<PasteCategory, UnknownCategory>)
        ensures
            parse_outcome(value@, r),
    {
        let lowered = lowercase(value.as_str());
        match PasteCategory::from_canonical_name(&lowered) {
            Some(c) => Ok(c),
            None => Err(UnknownCategory { text: value }),
        }
    }
}

/// Reading the canonical name of a category gives that category back.
pub proof fn lemma_category_round_trip(c: PasteCategory, r: Result<PasteCategory, UnknownCategory>)
    requires
        parse_outcome(name_of(c), r),
    ensures
        r == Ok::<PasteCategory, UnknownCategory>(c),
{
    reveal_strlit("markdown");
    reveal_strlit("plaintext");
    reveal_strlit("html");
    reveal_strlit("file");
    reveal_strlit("url");
    assert(is_ascii_lower(name_of(c)));
    assert(name_of(PasteCategory::Markdown).len() == 8);
    assert(name_of(PasteCategory::Plaintext).len() == 9);
    assert(name_of(PasteCategory::Html).len() == 4);
    assert(name_of(PasteCategory::File).len() == 4);
    assert(name_of(PasteCategory::Url).len() == 3);
    assert(name_of(PasteCategory::Html)[0] != name_of(PasteCategory::File)[0]);
}

} // verus!
