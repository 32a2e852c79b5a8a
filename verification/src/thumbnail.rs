//! Thumbnails: the image that a page names for itself.

use vstd::prelude::*;

use crate::text::{ends_with, is_suffix};

verus! {

/// What a selector finds in a page: how many errors the parser reported, and
/// for each element found, in the parser's order, the value of the
/// attribute asked for, if the element has it.
#[derive(Debug)]
pub struct Selection {
    pub parse_errors: usize,
    pub values: Vec<Option<String>>,
}

/// A URI that was read: its path, and the URI written out again.
#[derive(Debug)]
pub struct UriText {
    pub path: String,
    pub text: String,
}

/// A URI that was read, as plain values.
pub struct UriView {
    pub path: Seq<char>,
    pub text: Seq<char>,
}

impl View for UriText {
    type V = UriView;

    open spec fn view(&self) -> UriView {
        UriView { path: self.path@, text: self.text@ }
    }
}

impl DeepView for UriText {
    type V = UriView;

    open spec fn deep_view(&self) -> UriView {
        self@
    }
}

/// What the HTML parser and the selector find in a page: nothing where the
/// selector itself cannot be read, else the number of parse errors and the
/// attribute values of the elements found.
pub uninterp spec fn page_selection(
    page: Seq<char>,
    selector: Seq<char>,
    attribute: Seq<char>,
) -> Option<(nat, Seq<Option<Seq<char>>>)>;

/// The path of a URI and the URI as it is written out, if the text is a URI.
pub uninterp spec fn uri_text(content: Seq<char>) -> Option<UriView>;

/// `scraper::Selector::parse`, `scraper::Html::parse_document`,
/// `Html::select` and `ElementRef::attr`: parses the selector and the page,
/// and lists the attribute's value for each element that the selector
/// matches. The same texts always give the same result.
#[verifier::external_body]
fn select_attribute(page: &str, selector: &str, attribute: &str) -> (r: Option<Selection>)
    ensures
        selection_view(r) == page_selection(page@, selector@, attribute@),
{
    let selector = scraper::Selector::parse(selector).ok()?;
    let document = scraper::Html::parse_document(page);
    Some(Selection {
        parse_errors: document.errors.len(),
        values: document.select(&selector).map(|element| {
            element.attr(attribute).map(|value| value.to_string())
        }).collect(),
    })
}

/// `str::parse::<http::Uri>`, `Uri::path` and the URI's `to_string`. The
/// same text always gives the same result; a text that is no URI gives none.
#[verifier::external_body]
fn parse_uri(content: &str) -> (r: Option<UriText>)
    ensures
        r.deep_view() == uri_text(content@),
{
    match content.parse::<http::Uri>() {
        Ok(uri) => Some(UriText { path: uri.path().to_string(), text: uri.to_string() }),
        Err(_) => None,
    }
}

/// The selector for the Open Graph image elements in the head of a page.
pub const OG_IMAGE_SELECTOR: &'static str = "head > meta[property=\"og:image\"]";

/// The attribute that holds an Open Graph element's value.
pub const CONTENT_ATTRIBUTE: &'static str = "content";

/// Whether a path ends like an image file's.
pub open spec fn is_image_path(path: Seq<char>) -> bool {
    is_suffix("jpg"@, path) || is_suffix("jpeg"@, path) || is_suffix("png"@, path) || is_suffix(
        "webp"@,
        path,
    )
}

/// Whether a candidate is a URI with an image path.
pub open spec fn qualifies(candidate: Option<UriView>) -> bool {
    candidate is Some && is_image_path(candidate->0.path)
}

/// The first candidate that qualifies, written out.
pub open spec fn first_image(candidates: Seq<Option<UriView>>) -> Option<
    Seq<char>,
>
    decreases candidates.len(),
{
    if candidates.len() == 0 {
        None
    } else if qualifies(candidates[0]) {
        Some(candidates[0]->0.text)
    } else {
        first_image(candidates.drop_first())
    }
}

/// The URI that each attribute value writes, where it writes one.
pub open spec fn candidates_of(values: Seq<Option<Seq<char>>>) -> Seq<
    Option<UriView>,
> {
    values.map_values(
        |value: Option<Seq<char>>|
            match value {
                Some(content) => uri_text(content),
                None => None,
            },
    )
}

/// The image of what was found in a page: none where the page did not parse
/// cleanly, else the first image among the values found.
pub open spec fn image_of_selection(found: Option<(nat, Seq<Option<Seq<char>>>)>) -> Option<
    Seq<char>,
> {
    match found {
        Some((parse_errors, values)) => if parse_errors > 0 {
            None
        } else {
            first_image(candidates_of(values))
        },
        None => None,
    }
}

/// The image that a page names for itself.
pub open spec fn image_of_page(page: Seq<char>) -> Option<Seq<char>> {
    image_of_selection(page_selection(page, OG_IMAGE_SELECTOR@, CONTENT_ATTRIBUTE@))
}

/// Whether a path ends in `jpg`, `jpeg`, `png` or `webp`, in exactly these
/// letters.
pub fn has_image_extension(path: &str) -> (r: bool)
    ensures
        r == is_image_path(path@),
{
    ends_with(path, "jpg") || ends_with(path, "jpeg") || ends_with(path, "png") || ends_with(
        path,
        "webp",
    )
}

/// The first candidate that is a URI with an image path, written out; none
/// if no candidate qualifies.
pub fn pick_image(candidates: &Vec<Option<UriText>>) -> (image: Option<String>)
    ensures
        image.deep_view() == first_image(candidates.deep_view()),
{
    let ghost all = candidates.deep_view();
    let mut i: usize = 0;
    proof {
        assert(all.skip(0) == all);
    }
    while i < candidates.len()
        invariant
            0 <= i <= candidates.len(),
            all == candidates.deep_view(),
            first_image(all) == first_image(all.skip(i as int)),
        decreases candidates.len() - i,
    {
        proof {
            assert(all.skip(i as int)[0] == all[i as int]);
            assert(all.skip(i as int).drop_first() == all.skip(i + 1));
            assert(all[i as int] == candidates[i as int].deep_view());
        }
        match &candidates[i] {
            Some(uri) => {
                if has_image_extension(uri.path.as_str()) {
                    return Some(uri.text.clone());
                }
            },
            None => {},
        }
        i = i + 1;
    }
    None
}

/// What was found in a page, as plain values.
pub open spec fn selection_view(found: Option<Selection>) -> Option<
    (nat, Seq<Option<Seq<char>>>),
> {
    match found {
        Some(found) => Some((found.parse_errors as nat, found.values.deep_view())),
        None => None,
    }
}

/// The image of what was found in a page: none where nothing could be
/// looked for or the page did not parse cleanly; else the first of the
/// values found that is a URI with an image path, written out.
pub fn select_image(found: &Option<Selection>) -> (image: Option<String>)
    ensures
        image.deep_view() == image_of_selection(selection_view(*found)),
{
    match found {
        None => None,
        Some(found) => {
            if found.parse_errors > 0 {
                return None;
            }
            let ghost values = found.values.deep_view();
            let mut candidates: Vec<Option<UriText>> = Vec::new();
            let mut i: usize = 0;
            while i < found.values.len()
                invariant
                    0 <= i <= found.values.len(),
                    values == found.values.deep_view(),
                    candidates.deep_view() == candidates_of(values).take(i as int),
                decreases found.values.len() - i,
            {
                let candidate = match &found.values[i] {
                    Some(content) => parse_uri(content.as_str()),
                    None => None,
                };
                proof {
                    assert(values[i as int] == found.values[i as int].deep_view());
                    assert(candidates_of(values).take(i + 1) == candidates_of(values).take(
                        i as int,
                    ).push(candidates_of(values)[i as int]));
                }
                candidates.push(candidate);
                proof {
                    assert(candidates.deep_view() =~= candidates_of(values).take(i + 1));
                }
                i = i + 1;
            }
            proof {
                assert(candidates_of(values).take(found.values.len() as int) == candidates_of(
                    values,
                ));
            }
            pick_image(&candidates)
        },
    }
}

/// The image of a fetched page: the first `og:image` element in the page's
/// head whose `content` is a URI with an image path, written out. A page
/// that does not parse cleanly, or that has no such element, has no image.
pub fn get_image_from_link(page: &str) -> (image: Option<String>)
    ensures
        image.deep_view() == image_of_page(page@),
{
    let found = select_attribute(page, OG_IMAGE_SELECTOR, CONTENT_ATTRIBUTE);
    select_image(&found)
}

/// The first image is the text of the earliest candidate that qualifies, and
/// there is none exactly when no candidate qualifies.
pub proof fn lemma_first_image(candidates: Seq<Option<UriView>>)
    ensures
        match first_image(candidates) {
            Some(text) => exists|i: int|
                0 <= i < candidates.len() && qualifies(#[trigger] candidates[i]) && text
                    == candidates[i]->0.text && forall|j: int|
                    0 <= j < i ==> !qualifies(#[trigger] candidates[j]),
            None => forall|i: int| 0 <= i < candidates.len() ==> !qualifies(#[trigger] candidates[i]),
        },
    decreases candidates.len(),
{
    if candidates.len() == 0 {
    } else if qualifies(candidates[0]) {
        assert(forall|j: int| 0 <= j < 0 ==> !qualifies(#[trigger] candidates[j]));
    } else {
        let rest = candidates.drop_first();
        lemma_first_image(rest);
        match first_image(rest) {
            Some(text) => {
                let i = choose|i: int|
                    0 <= i < rest.len() && qualifies(#[trigger] rest[i]) && text == rest[i]->0.text
                        && forall|j: int| 0 <= j < i ==> !qualifies(#[trigger] rest[j]);
                assert(candidates[i + 1] == rest[i]);
                assert forall|j: int| 0 <= j < i + 1 implies !qualifies(
                    #[trigger] candidates[j],
                ) by {
                    if j > 0 {
                        assert(candidates[j] == rest[j - 1]);
                    }
                }
            },
            None => {
                assert forall|i: int| 0 <= i < candidates.len() implies !qualifies(
                    #[trigger] candidates[i],
                ) by {
                    if i > 0 {
                        assert(candidates[i] == rest[i - 1]);
                    }
                }
            },
        }
    }
}

} // verus!
