//! Resolution of the target agents from a label selector.
use vstd::prelude::*;

verus! {

/// What `str::trim` leaves of a piece of text.
pub uninterp spec fn trimmed(s: Seq<char>) -> Seq<char>;

/// Relies on `str::trim`: leading and trailing whitespace removed, a function
/// of the characters alone.
#[verifier::external_body]
fn trim_text(s: &str) -> (r: String)
    ensures
        r@ == trimmed(s@),
{
    s.trim().to_string()
}

/// The label key under which the comma-separated agent list is given.
pub open spec fn agent_key() -> Seq<char> {
    "ankaios.io/agent"@
}

/// The pieces of `s` between occurrences of `sep`, left to right; text
/// without a separator is one piece, so the empty text gives one empty piece.
pub open spec fn split_on(s: Seq<char>, sep: char) -> Seq<Seq<char>>
    decreases s.len(),
{
    if s.len() == 0 {
        seq![Seq::<char>::empty()]
    } else {
        let p = split_on(s.drop_last(), sep);
        if s.last() == sep {
            p.push(Seq::<char>::empty())
        } else {
            p.update(p.len() - 1, p.last().push(s.last()))
        }
    }
}

/// The value of the first label whose key is `key`.
pub open spec fn label_value(labels: Seq<(String, String)>, key: Seq<char>) -> Option<Seq<char>>
    decreases labels.len(),
{
    if labels.len() == 0 {
        None
    } else if labels[0].0@ == key {
        Some(labels[0].1@)
    } else {
        label_value(labels.drop_first(), key)
    }
}

/// The agents that a selector names: its agent value split on commas, each
/// piece trimmed, in order; no agents where the agent key is absent.
pub open spec fn agents_of(labels: Seq<(String, String)>) -> Seq<Seq<char>> {
    match label_value(labels, agent_key()) {
        None => Seq::<Seq<char>>::empty(),
        Some(v) => split_on(v, ',').map_values(|p: Seq<char>| trimmed(p)),
    }
}

/// The view of a list of strings.
pub open spec fn texts(v: Seq<String>) -> Seq<Seq<char>> {
    v.map_values(|s: String| s@)
}

/// Finds the value of the first label whose key is `key`.
pub fn find_label<'a>(labels: &'a Vec<(String, String)>, key: &String) -> (r: Option<&'a String>)
    ensures
        match r {
            None => label_value(labels@, key@) is None,
            Some(v) => label_value(labels@, key@) == Some(v@),
        },
{
    let n = labels.len();
    let mut i: usize = 0;
    assert(labels@.subrange(0, n as int) =~= labels@);
    while i < n
        invariant
            n == labels@.len(),
            i <= n,
            label_value(labels@, key@) == label_value(labels@.subrange(i as int, n as int), key@),
        decreases n - i,
    {
        let ghost rest = labels@.subrange(i as int, n as int);
        assert(rest.drop_first() =~= labels@.subrange(i + 1, n as int));
        if labels[i].0 == *key {
            return Some(&labels[i].1);
        }
        i = i + 1;
    }
    assert(labels@.subrange(n as int, n as int).len() == 0);
    None
}

/// Splits `s` on `sep` and trims each piece, keeping empty pieces and order.
pub fn split_trimmed(s: &str, sep: char) -> (r: Vec<String>)
    ensures
        texts(r@) == split_on(s@, sep).map_values(|p: Seq<char>| trimmed(p)),
{
    let n = s.unicode_len();
    let mut pieces: Vec<String> = Vec::new();
    let mut start: usize = 0;
    let mut i: usize = 0;
    while i < n
        invariant
            n == s@.len(),
            start <= i <= n,
            split_on(s@.subrange(0, i as int), sep).len() == pieces@.len() + 1,
            forall|j: int|
                0 <= j < pieces@.len() ==> #[trigger] pieces@[j]@ == trimmed(
                    split_on(s@.subrange(0, i as int), sep)[j],
                ),
            split_on(s@.subrange(0, i as int), sep).last() == s@.subrange(start as int, i as int),
        decreases n - i,
    {
        let c = s.get_char(i);
        assert(s@.subrange(0, i + 1).drop_last() =~= s@.subrange(0, i as int));
        if c == sep {
            let piece = trim_text(s.substring_char(start, i));
            pieces.push(piece);
            start = i + 1;
        } else {
            assert(s@.subrange(start as int, i + 1) =~= s@.subrange(start as int, i as int).push(c));
        }
        i = i + 1;
    }
    let last = trim_text(s.substring_char(start, n));
    pieces.push(last);
    assert(s@.subrange(0, n as int) =~= s@);
    assert(texts(pieces@) =~= split_on(s@, sep).map_values(|p: Seq<char>| trimmed(p)));
    pieces
}

/// The agents named by a selector's labels, in the order given.
pub fn resolve_target_agents(labels: &Vec<(String, String)>) -> (r: Vec<String>)
    ensures
        texts(r@) == agents_of(labels@),
        label_value(labels@, agent_key()) is None ==> r@.len() == 0,
{
    let key = String::from_str("ankaios.io/agent");
    match find_label(labels, &key) {
        None => {
            let r: Vec<String> = Vec::new();
            assert(texts(r@) =~= Seq::<Seq<char>>::empty());
            r
        },
        Some(v) => split_trimmed(v.as_str(), ','),
    }
}

} // verus!
