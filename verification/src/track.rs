//! Tracks as they are named on disk: the provider that a track came from
//! and its identifier there, joined by an underscore.

use crate::text::{from_chars, remove_char, to_chars, without};
use vstd::prelude::*;
use vstd::string::StringExecFns;

verus! {

/// A track of some provider.
#[derive(Debug, Clone, PartialEq, Eq)]
pub struct Track {
    pub provider: String,
    pub id: String,
}

/// `s` in lower case, as `str::to_lowercase` gives it.
pub uninterp spec fn lowercase(s: Seq<char>) -> Seq<char>;

/// `str::to_lowercase`: a new string, `s` in lower case.
#[verifier::external_body]
fn to_lowercase(s: &str) -> (lower: String)
    ensures
        lower@ == lowercase(s@),
{
    s.to_lowercase()
}

/// The position of the first underscore in `s`; the length of `s` where it
/// has none.
pub open spec fn separator(s: Seq<char>) -> int
    decreases s.len(),
{
    if s.len() == 0 || s.first() == '_' {
        0
    } else {
        1 + separator(s.drop_first())
    }
}

/// What stands before and after the first underscore of `s`, if it has
/// one.
pub open spec fn split(s: Seq<char>) -> Option<(Seq<char>, Seq<char>)> {
    if separator(s) < s.len() {
        Some((s.take(separator(s)), s.skip(separator(s) + 1)))
    } else {
        None
    }
}

/// `separator` finds the first underscore: none stands before it, and one
/// stands at it unless it is the end.
pub proof fn lemma_separator(s: Seq<char>)
    ensures
        0 <= separator(s) <= s.len(),
        separator(s) < s.len() ==> s[separator(s)] == '_',
        forall|i: int| 0 <= i < separator(s) ==> (#[trigger] s[i]) != '_',
    decreases s.len(),
{
    if !(s.len() == 0 || s.first() == '_') {
        let rest = s.drop_first();
        lemma_separator(rest);
        assert forall|i: int| 0 <= i < separator(s) implies (#[trigger] s[i]) != '_' by {
            if i > 0 {
                assert(s[i] == rest[i - 1]);
            }
        }
    }
}

/// The first position `k` that holds an underscore is the separator.
pub proof fn lemma_separator_is(s: Seq<char>, k: int)
    requires
        0 <= k <= s.len(),
        k < s.len() ==> s[k] == '_',
        forall|i: int| 0 <= i < k ==> (#[trigger] s[i]) != '_',
    ensures
        separator(s) == k,
{
    lemma_separator(s);
    let j = separator(s);
    if j < k {
        assert(s[j] != '_');
    } else if k < j {
        assert(s[k] != '_');
    }
}

impl Track {
    /// The name of the track: provider, underscore, identifier.
    pub open spec fn name(self) -> Seq<char> {
        self.provider@ + seq!['_'] + self.id@
    }

    /// The name under which the track is downloaded: its name without dots
    /// and without the character that separates the parts of a path.
    pub open spec fn plain_name(self, separator: char) -> Seq<char> {
        without(without(self.name(), separator), '.')
    }

    /// Where the track is fetched from, as the path and query of an
    /// address at its provider. Only `youtube`, in any case of letters, is a
    /// provider that tracks can be fetched from.
    pub open spec fn address(self) -> Result<Seq<char>, Seq<char>> {
        if lowercase(self.provider@) == "youtube"@ {
            Ok("/watch?v="@ + self.id@)
        } else {
            Err("Invalid Provider"@)
        }
    }

    /// Reads a track's name: the provider is what stands before the first
    /// underscore, the identifier what follows it. A name without an
    /// underscore names no track.
    pub fn parse(str: &str) -> (track: Option<Track>)
        ensures
            match track {
                Some(t) => split(str@) == Some((t.provider@, t.id@)),
                None => split(str@) is None,
            },
    {
        let v = to_chars(str);
        let mut k: usize = 0;
        while k < v.len() && v[k] != '_'
            invariant
                k <= v.len(),
                forall|i: int| 0 <= i < k ==> (#[trigger] v@[i]) != '_',
            decreases v.len() - k,
        {
            k += 1;
        }
        proof {
            lemma_separator_is(v@, k as int);
        }
        if k < v.len() {
            Some(Track { provider: from_chars(&v, 0, k), id: from_chars(&v, k + 1, v.len()) })
        } else {
            None
        }
    }

    /// The track's name.
    pub fn to_string(&self) -> (s: String)
        ensures
            s@ == self.name(),
    {
        let mut s = self.provider.clone();
        s.push('_');
        s.append(self.id.as_str());
        s
    }
}

impl Track {
    /// The name under which the track is downloaded.
    pub fn output_name(&self, separator: char) -> (s: String)
        ensures
            s@ == self.plain_name(separator),
    {
        let name = self.to_string();
        let kept = remove_char(name.as_str(), separator);
        remove_char(kept.as_str(), '.')
    }

    /// The path and query of the address that the track is fetched from, or
    /// the words that say its provider is none.
    pub fn watch_path(&self) -> (r: Result<String, String>)
        ensures
            match r {
                Ok(p) => self.address() == Ok::<Seq<char>, Seq<char>>(p@),
                Err(e) => self.address() == Err::<Seq<char>, Seq<char>>(e@),
            },
    {
        let lower = to_lowercase(self.provider.as_str());
        if lower == String::from_str("youtube") {
            let mut path = String::from_str("/watch?v=");
            path.append(self.id.as_str());
            Ok(path)
        } else {
            Err(String::from_str("Invalid Provider"))
        }
    }
}

/// A name that names a track is the name of that track.
pub proof fn lemma_name_of_parsed(s: Seq<char>)
    requires
        split(s) is Some,
    ensures
        split(s)->Some_0.0 + seq!['_'] + split(s)->Some_0.1 == s,
{
    lemma_separator(s);
    assert(s.take(separator(s)) + seq!['_'] + s.skip(separator(s) + 1) =~= s);
}

/// A track's name names the track again, as long as the provider holds no
/// underscore.
pub proof fn lemma_parse_of_name(provider: Seq<char>, id: Seq<char>)
    requires
        forall|i: int| 0 <= i < provider.len() ==> (#[trigger] provider[i]) != '_',
    ensures
        split(provider + seq!['_'] + id) == Some((provider, id)),
{
    let s = provider + seq!['_'] + id;
    lemma_separator_is(s, provider.len() as int);
    assert(s.take(provider.len() as int) =~= provider);
    assert(s.skip(provider.len() as int + 1) =~= id);
}

} // verus!
