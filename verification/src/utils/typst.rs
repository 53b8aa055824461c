use vstd::prelude::*;
use vstd::string::StringSliceAdditionalSpecFns;

verus! {

/// A compiled regular expression over bytes.
#[verifier::external_type_specification]
#[verifier::external_body]
pub struct ExRegex(regex::bytes::Regex);

/// The error that `Regex::new` reports for a pattern it refuses.
#[verifier::external_type_specification]
#[verifier::external_body]
pub struct ExRegexError(regex::Error);

/// The pattern of a self-contained `<path .../>` or `<path ...>...</path>` element.
pub const PATH_ELEMENT_PATTERN: &'static str = "<path[^>]*(?:>.*?<\\/path>|\\/>)";

/// The pattern is the one of a path element whose body is matched lazily:
/// `.*?` stops at the first `</path>`, so a match never spans two elements.
pub proof fn lemma_path_pattern_is_lazy()
    ensures
        PATH_ELEMENT_PATTERN@ == "<path[^>]*(?:>.*?<\\/path>|\\/>)"@,
        PATH_ELEMENT_PATTERN@.subrange(13, 17) == ">.*?"@,
{
    reveal_strlit("<path[^>]*(?:>.*?<\\/path>|\\/>)");
    reveal_strlit(">.*?");
}

/// Whether the regex crate accepts `pattern` (`Regex::new` returns `Ok`).
pub uninterp spec fn pattern_compiles(pattern: Seq<char>) -> bool;

/// The byte range of the leftmost-first match of `pattern` in `haystack`, if any.
pub uninterp spec fn leftmost_first_match(pattern: Seq<char>, haystack: Seq<u8>) -> Option<(usize, usize)>;

/// The string that `String::from_utf8_lossy` makes of `bytes`.
pub uninterp spec fn utf8_lossy(bytes: Seq<u8>) -> Seq<char>;

/// A regular expression together with the pattern it was compiled from.
pub struct Pattern {
    source: String,
    compiled: regex::bytes::Regex,
}

impl View for Pattern {
    type V = Seq<char>;

    closed spec fn view(&self) -> Seq<char> {
        self.source@
    }
}

/// `haystack` with the range `start..end` replaced by `rep`.
pub open spec fn splice(haystack: Seq<u8>, start: int, end: int, rep: Seq<u8>) -> Seq<u8> {
    haystack.take(start) + rep + haystack.skip(end)
}

/// `haystack` with its leftmost-first match of `pattern` replaced by `rep`;
/// `haystack` itself where there is no match.
pub open spec fn replace_first(pattern: Seq<char>, haystack: Seq<u8>, rep: Seq<u8>) -> Seq<u8> {
    match leftmost_first_match(pattern, haystack) {
        Some((start, end)) => splice(haystack, start as int, end as int, rep),
        None => haystack,
    }
}

/// The bytes of the SVG text `svg` once its first path element is removed.
pub open spec fn without_first_path(svg: Seq<u8>) -> Seq<u8> {
    replace_first(PATH_ELEMENT_PATTERN@, svg, Seq::empty())
}

/// What is left of the SVG text `svg` once its first path element is removed,
/// decoded as `String::from_utf8_lossy` decodes it.
pub open spec fn typst_element(svg: Seq<u8>) -> Seq<char> {
    utf8_lossy(without_first_path(svg))
}

/// Compiles `source` with `regex::bytes::Regex::new`. The contract claims
/// that the call succeeds exactly when the pattern is one the crate accepts,
/// and that the compiled expression is kept with its source.
#[verifier::external_body]
fn compile(source: &str) -> (r: Result<Pattern, regex::Error>)
    ensures
        r is Ok <==> pattern_compiles(source@),
        r matches Ok(p) ==> p@ == source@,
{
    regex::bytes::Regex::new(source).map(|compiled| Pattern { source: source.to_string(), compiled })
}

/// Calls `regex::bytes::Regex::replace` with a replacement that holds no `$`.
/// The contract claims what the crate documents: the leftmost-first match,
/// which lies within the haystack, is replaced by `rep`, and where there is
/// no match the haystack comes back unchanged.
#[verifier::external_body]
fn replace(pattern: &Pattern, haystack: &[u8], rep: &[u8]) -> (r: Vec<u8>)
    requires
        !rep@.contains('$' as u8),
    ensures
        (match leftmost_first_match(pattern@, haystack@) {
            Some((start, end)) => start <= end <= haystack@.len() && r@ == splice(
                haystack@,
                start as int,
                end as int,
                rep@,
            ),
            None => r@ == haystack@,
        }),
{
    pattern.compiled.replace(haystack, rep).into_owned()
}

/// Calls `String::from_utf8_lossy`. The contract claims what std documents:
/// valid UTF-8 is decoded as it is.
#[verifier::external_body]
fn from_utf8_lossy(bytes: &[u8]) -> (r: String)
    ensures
        r@ == utf8_lossy(bytes@),
        vstd::utf8::valid_utf8(bytes@) ==> r@ == vstd::utf8::decode_utf8(bytes@),
{
    String::from_utf8_lossy(bytes).into_owned()
}

/// remove `r"<path[^>]*(?:>.*?<\/path>|\/>)"`
pub fn get_typst_element(svg: &str) -> (r: String)
    requires
        pattern_compiles(PATH_ELEMENT_PATTERN@),
    ensures
        r@ == typst_element(svg.spec_bytes()),
        vstd::utf8::valid_utf8(without_first_path(svg.spec_bytes())) ==> r@
            == vstd::utf8::decode_utf8(without_first_path(svg.spec_bytes())),
        (match leftmost_first_match(PATH_ELEMENT_PATTERN@, svg.spec_bytes()) {
            Some((start, end)) => {
                &&& start <= end <= svg.spec_bytes().len()
                &&& r@ == utf8_lossy(
                    svg.spec_bytes().take(start as int) + svg.spec_bytes().skip(end as int),
                )
            },
            None => r@ == utf8_lossy(svg.spec_bytes()),
        }),
{
    match compile(PATH_ELEMENT_PATTERN) {
        Ok(re) => {
            let removed_bg = replace(&re, svg.as_bytes(), &[]);
            from_utf8_lossy(&removed_bg)
        },
        Err(_) => {
            proof {
                assert(false);
            }
            String::new()
        },
    }
}

/// [`get_typst_element`] for callers that cannot know that the pattern
/// compiles: `None` where the regex crate refuses it.
pub fn try_get_typst_element(svg: &str) -> (r: Option<String>)
    ensures
        r is Some <==> pattern_compiles(PATH_ELEMENT_PATTERN@),
        r matches Some(s) ==> s@ == typst_element(svg.spec_bytes()),
        r matches Some(s) ==> (vstd::utf8::valid_utf8(without_first_path(svg.spec_bytes())) ==> s@
            == vstd::utf8::decode_utf8(without_first_path(svg.spec_bytes()))),
        r matches Some(s) ==> (match leftmost_first_match(PATH_ELEMENT_PATTERN@, svg.spec_bytes()) {
            Some((start, end)) => {
                &&& start <= end <= svg.spec_bytes().len()
                &&& s@ == utf8_lossy(
                    svg.spec_bytes().take(start as int) + svg.spec_bytes().skip(end as int),
                )
            },
            None => s@ == utf8_lossy(svg.spec_bytes()),
        }),
{
    match compile(PATH_ELEMENT_PATTERN) {
        Ok(_) => Some(get_typst_element(svg)),
        Err(_) => None,
    }
}

} // verus!
