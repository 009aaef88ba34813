use vstd::prelude::*;
use vstd::string::*;

use crate::error::{Error, ErrorKind};

verus! {

/// The separators recognised between paths in the path-list argument: the
/// ASCII whitespace characters.
pub open spec fn is_space(c: char) -> bool {
    c == ' ' || c == '\t' || c == '\n' || c == '\r'
}

/// The tokens and the unfinished trailing token after reading `s` from left
/// to right: a separator closes the token under construction (if any), every
/// other character extends it.
pub open spec fn split_state(s: Seq<char>) -> (Seq<Seq<char>>, Seq<char>)
    decreases s.len(),
{
    if s.len() == 0 {
        (Seq::<Seq<char>>::empty(), Seq::<char>::empty())
    } else {
        let prev = split_state(s.drop_last());
        let c = s.last();
        if is_space(c) {
            if prev.1.len() == 0 {
                (prev.0, Seq::<char>::empty())
            } else {
                (prev.0.push(prev.1), Seq::<char>::empty())
            }
        } else {
            (prev.0, prev.1.push(c))
        }
    }
}

/// The whitespace-separated tokens of `s`, in order: the maximal runs of
/// non-separator characters.
pub open spec fn split_spec(s: Seq<char>) -> Seq<Seq<char>> {
    let st = split_state(s);
    if st.1.len() == 0 {
        st.0
    } else {
        st.0.push(st.1)
    }
}

/// Splits the path-list argument into the whitespace-separated paths, in the
/// order given.
pub fn split_paths(chars: &Vec<char>) -> (tokens: Vec<Vec<char>>)
    ensures
        tokens@.map_values(|t: Vec<char>| t@) == split_spec(chars@),
{
    let mut tokens: Vec<Vec<char>> = Vec::new();
    let mut cur: Vec<char> = Vec::new();
    let mut i: usize = 0;
    while i < chars.len()
        invariant
            i <= chars@.len(),
            tokens@.map_values(|t: Vec<char>| t@) == split_state(chars@.take(i as int)).0,
            cur@ == split_state(chars@.take(i as int)).1,
        decreases chars@.len() - i,
    {
        let c = chars[i];
        proof {
            assert(chars@.take(i + 1).drop_last() =~= chars@.take(i as int));
            assert(chars@.take(i + 1).last() == chars@[i as int]);
        }
        if c == ' ' || c == '\t' || c == '\n' || c == '\r' {
            if cur.len() > 0 {
                let finished = cur;
                cur = Vec::new();
                let ghost toks_before = tokens@.map_values(|t: Vec<char>| t@);
                tokens.push(finished);
                proof {
                    assert(tokens@.map_values(|t: Vec<char>| t@) =~= toks_before.push(
                        finished@,
                    ));
                }
            }
        } else {
            cur.push(c);
        }
        i += 1;
    }
    proof {
        assert(chars@.take(chars@.len() as int) =~= chars@);
    }
    if cur.len() > 0 {
        let ghost toks_before = tokens@.map_values(|t: Vec<char>| t@);
        let finished = cur;
        tokens.push(finished);
        proof {
            assert(tokens@.map_values(|t: Vec<char>| t@) =~= toks_before.push(finished@));
        }
    }
    tokens
}

/// The ordered, non-empty sequence of watched file paths, fixed for the
/// process lifetime. The caller checks once, at startup, that every path
/// exists; existence is not re-checked afterwards, so a path disappearing
/// later surfaces as a metadata error on a poll tick.
#[derive(Debug)]
pub struct WatchSet {
    paths: Vec<String>,
}

impl View for WatchSet {
    type V = Seq<Seq<char>>;

    closed spec fn view(&self) -> Seq<Seq<char>> {
        self.paths@.map_values(|p: String| p@)
    }
}

impl WatchSet {
    /// Validates the path list: an empty list is a configuration error,
    /// otherwise the watch set keeps the paths in the order given.
    pub fn new(paths: Vec<String>) -> (r: Result<WatchSet, Error>)
        ensures
            paths@.len() == 0 ==> (r matches Err(e) && e.kind is Config),
            paths@.len() > 0 ==> (r matches Ok(w)
                && w@ == paths@.map_values(|p: String| p@)),
    {
        if paths.len() == 0 {
            Result::Err(
                Error::new(
                    ErrorKind::Config,
                    String::from_str("the watch set must name at least one file"),
                ),
            )
        } else {
            Result::Ok(WatchSet { paths })
        }
    }

    /// How many paths are watched; always at least one.
    pub fn len(&self) -> (n: usize)
        ensures
            n == self@.len(),
    {
        self.paths.len()
    }

    /// The path at position `i` in watch-set order.
    pub fn path(&self, i: usize) -> (p: &String)
        requires
            i < self@.len(),
        ensures
            p@ == self@[i as int],
    {
        &self.paths[i]
    }
}

} // verus!
