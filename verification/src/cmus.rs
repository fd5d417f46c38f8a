//! A snapshot of a music player's reported status: a small record assembled
//! from a key-value status report, with a fixed placeholder for every field
//! the report does not carry.

use vstd::prelude::*;
use crate::text::str_eq;

verus! {

/// A key-value status report. The newest entry recorded for a key wins.
pub struct StatusReport {
    entries: Vec<(String, String)>,
}

/// The value the report holds for `key`, if any: the first entry whose key
/// matches.
pub open spec fn lookup(entries: Seq<(Seq<char>, Seq<char>)>, key: Seq<char>) -> Option<Seq<char>>
    decreases entries.len(),
{
    if entries.len() == 0 {
        None
    } else if entries[0].0 == key {
        Some(entries[0].1)
    } else {
        lookup(entries.drop_first(), key)
    }
}

/// The value for `key`, or `default` where the report has none.
pub open spec fn value_or(
    entries: Seq<(Seq<char>, Seq<char>)>,
    key: Seq<char>,
    default: Seq<char>,
) -> Seq<char> {
    match lookup(entries, key) {
        Some(value) => value,
        None => default,
    }
}

impl View for StatusReport {
    type V = Seq<(Seq<char>, Seq<char>)>;

    closed spec fn view(&self) -> Seq<(Seq<char>, Seq<char>)> {
        self.entries@.map_values(|entry: (String, String)| (entry.0@, entry.1@))
    }
}

impl StatusReport {
    /// An empty report.
    pub fn new() -> (r: StatusReport)
        ensures
            r@ == Seq::<(Seq<char>, Seq<char>)>::empty(),
    {
        let r = StatusReport { entries: Vec::new() };
        proof {
            assert(r@ =~= Seq::<(Seq<char>, Seq<char>)>::empty());
        }
        r
    }

    /// Record a value for a key; it shadows any earlier entry for that key.
    pub fn insert(&mut self, key: String, value: String)
        ensures
            final(self)@ == seq![(key@, value@)] + old(self)@,
    {
        let ghost before = self@;
        let ghost key_view = key@;
        let ghost value_view = value@;
        self.entries.insert(0, (key, value));
        proof {
            assert(self@ =~= seq![(key_view, value_view)] + before);
        }
    }

    /// The value recorded for `key`, if any.
    pub fn get(&self, key: &str) -> (r: Option<&String>)
        ensures
            match r {
                Some(value) => lookup(self@, key@) == Some(value@),
                None => lookup(self@, key@) is None,
            },
    {
        let n: usize = self.entries.len();
        let mut i: usize = 0;
        proof {
            assert(self@.skip(0) =~= self@);
        }
        while i < n
            invariant
                0 <= i <= n,
                n == self.entries.len(),
                self@.len() == self.entries@.len(),
                lookup(self@, key@) == lookup(self@.skip(i as int), key@),
            decreases n - i,
        {
            if str_eq(self.entries[i].0.as_str(), key) {
                proof {
                    assert(self@.skip(i as int)[0] == self@[i as int]);
                }
                return Some(&self.entries[i].1);
            }
            proof {
                assert(self@.skip(i as int)[0] == self@[i as int]);
                assert(self@.skip(i as int).drop_first() =~= self@.skip(i as int + 1));
            }
            i = i + 1;
        }
        proof {
            assert(self@.skip(n as int) =~= Seq::<(Seq<char>, Seq<char>)>::empty());
        }
        None
    }
}

/// What the player reports about the current track.
#[derive(Clone, Debug, PartialEq)]
pub struct Cmus {
    pub status: String,
    pub artist: String,
    pub title: String,
    pub album: String,
}

impl Cmus {
    /// Assemble a record from a status report, substituting a fixed
    /// placeholder for every field the report does not carry.
    pub fn new(status_map: &StatusReport) -> (r: Cmus)
        ensures
            r.status@ == value_or(status_map@, "status"@, "Unknow status"@),
            r.artist@ == value_or(status_map@, "artist"@, "Unknown artist"@),
            r.title@ == value_or(status_map@, "title"@, "Unknown Title"@),
            r.album@ == value_or(status_map@, "album"@, "Unknown Album"@),
    {
        let status = match status_map.get("status") {
            Some(value) => value.clone(),
            None => "Unknow status".to_owned(),
        };
        let artist = match status_map.get("artist") {
            Some(value) => value.clone(),
            None => "Unknown artist".to_owned(),
        };
        let title = match status_map.get("title") {
            Some(value) => value.clone(),
            None => "Unknown Title".to_owned(),
        };
        let album = match status_map.get("album") {
            Some(value) => value.clone(),
            None => "Unknown Album".to_owned(),
        };
        Cmus { status, artist, title, album }
    }
}

} // verus!
