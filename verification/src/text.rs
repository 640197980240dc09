//! Small operations on text that several parts of the library share.
use vstd::prelude::*;

verus! {

/// The words of `text`: what std's `str::split_whitespace` yields for it.
pub uninterp spec fn whitespace_words(text: Seq<char>) -> Seq<Seq<char>>;

/// The texts of `texts`, each by its view.
pub open spec fn texts_view(texts: Seq<String>) -> Seq<Seq<char>> {
    Seq::new(texts.len(), |i: int| texts[i]@)
}

/// The text of `text`, or the empty text where there is none.
pub open spec fn text_or_empty(text: Option<String>) -> Seq<char> {
    match text {
        Some(t) => t@,
        None => Seq::empty(),
    }
}

/// The text of `text`, or the empty text where there is none.
pub fn or_empty(text: &Option<String>) -> (r: String)
    ensures
        r@ == text_or_empty(*text),
{
    match text {
        Some(t) => t.clone(),
        None => String::new(),
    }
}

/// Splits `text` at white space, with std's `str::split_whitespace`. The
/// contract gives the words a name and claims no more of them.
#[verifier::external_body]
pub(crate) fn split_words(text: &str) -> (words: Vec<String>)
    ensures
        texts_view(words@) == whitespace_words(text@),
{
    text.split_whitespace().map(String::from).collect()
}

/// Whether `text` begins with `prefix`.
pub fn starts_with(text: &str, prefix: &str) -> (r: bool)
    ensures
        r == prefix@.is_prefix_of(text@),
{
    let n: usize = prefix.unicode_len();
    if text.unicode_len() < n {
        return false;
    }
    let mut i: usize = 0;
    while i < n
        invariant
            i <= n,
            n == prefix@.len(),
            n <= text@.len(),
            forall|k: int| 0 <= k < i ==> text@[k] == prefix@[k],
        decreases n - i,
    {
        if text.get_char(i) != prefix.get_char(i) {
            return false;
        }
        i += 1;
    }
    assert(prefix@ =~= text@.subrange(0, n as int));
    true
}

/// The texts of `parts` one after the other, with `separator` between each
/// two of them.
pub open spec fn joined(parts: Seq<Seq<char>>, separator: Seq<char>) -> Seq<char>
    decreases parts.len(),
{
    if parts.len() == 0 {
        Seq::empty()
    } else if parts.len() == 1 {
        parts[0]
    } else {
        joined(parts.drop_last(), separator) + separator + parts.last()
    }
}

/// The texts of `parts` one after the other, with `separator` between each
/// two of them.
pub fn join(parts: &Vec<String>, separator: &str) -> (r: String)
    ensures
        r@ == joined(texts_view(parts@), separator@),
{
    let mut out = String::new();
    let mut i: usize = 0;
    while i < parts.len()
        invariant
            i <= parts@.len(),
            out@ == joined(texts_view(parts@).take(i as int), separator@),
        decreases parts@.len() - i,
    {
        let ghost before = texts_view(parts@).take(i as int);
        let ghost now = texts_view(parts@).take(i + 1);
        proof {
            assert(now.drop_last() =~= before);
            assert(now.last() == parts@[i as int]@);
        }
        if i > 0 {
            out.append(separator);
        }
        out.append(parts[i].as_str());
        proof {
            if i == 0 {
                assert(before.len() == 0);
                assert(out@ =~= parts@[0]@);
            }
        }
        i += 1;
    }
    assert(texts_view(parts@).take(parts@.len() as int) =~= texts_view(parts@));
    out
}

/// The texts of `parts` one after the other.
pub open spec fn concatenated(parts: Seq<Seq<char>>) -> Seq<char>
    decreases parts.len(),
{
    if parts.len() == 0 {
        Seq::empty()
    } else {
        concatenated(parts.drop_last()) + parts.last()
    }
}

/// The texts of `parts` one after the other.
pub fn concat_texts(parts: &Vec<String>) -> (r: String)
    ensures
        r@ == concatenated(texts_view(parts@)),
{
    let mut out = String::new();
    let mut i: usize = 0;
    while i < parts.len()
        invariant
            i <= parts@.len(),
            out@ == concatenated(texts_view(parts@).take(i as int)),
        decreases parts@.len() - i,
    {
        proof {
            let now = texts_view(parts@).take(i + 1);
            assert(now.drop_last() =~= texts_view(parts@).take(i as int));
            assert(now.last() == parts@[i as int]@);
        }
        out.append(parts[i].as_str());
        i += 1;
    }
    assert(texts_view(parts@).take(parts@.len() as int) =~= texts_view(parts@));
    out
}

/// Copies a list of texts.
pub fn clone_texts(texts: &Vec<String>) -> (r: Vec<String>)
    ensures
        texts_view(r@) == texts_view(texts@),
        r@.len() == texts@.len(),
{
    let mut out: Vec<String> = Vec::new();
    let mut i: usize = 0;
    while i < texts.len()
        invariant
            i <= texts@.len(),
            out@.len() == i,
            forall|k: int| 0 <= k < i ==> out@[k]@ == texts@[k]@,
        decreases texts@.len() - i,
    {
        out.push(texts[i].clone());
        i += 1;
    }
    assert(texts_view(out@) =~= texts_view(texts@));
    out
}

/// Whether `texts` holds `text`.
pub fn contains_text(texts: &Vec<String>, text: &String) -> (r: bool)
    ensures
        r == texts_view(texts@).contains(text@),
{
    let mut i: usize = 0;
    while i < texts.len()
        invariant
            i <= texts@.len(),
            forall|k: int| 0 <= k < i ==> texts_view(texts@)[k] != text@,
        decreases texts@.len() - i,
    {
        if texts[i] == *text {
            assert(texts_view(texts@)[i as int] == text@);
            return true;
        }
        i += 1;
    }
    false
}

} // verus!
