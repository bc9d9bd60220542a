//! The Header View: a bounded, read-only projection over the native engine's
//! per-request header buffer.
//!
//! The engine hands the adapter a fixed-size buffer of name/value records.
//! The view stops at the first record whose name is absent (empty) or after
//! [`MAX_HEADERS`] records, whichever comes first; records past that point are
//! invisible. Names and values are raw byte strings, passed through without a
//! validity check. Lookup by name compares names ASCII-case-insensitively, as
//! HTTP does.

use vstd::prelude::*;

use crate::bytes::eq_ignore_ascii_case;
use crate::bytes::lower_seq;

verus! {

/// The engine's header buffer holds at most this many records per request;
/// records beyond this ceiling are invisible to the adapter.
pub const MAX_HEADERS: usize = 64;

/// One header record: a name/value pair of raw bytes (not guaranteed UTF-8).
pub struct Header {
    pub name: Vec<u8>,
    pub value: Vec<u8>,
}

impl View for Header {
    type V = (Seq<u8>, Seq<u8>);

    open spec fn view(&self) -> (Seq<u8>, Seq<u8>) {
        (self.name@, self.value@)
    }
}

impl Header {
    /// The record's name, or `None` where the engine supplied none.
    pub fn name(&self) -> (r: Option<&Vec<u8>>)
        ensures
            self@.0.len() == 0 <==> r is None,
            r matches Some(n) ==> n@ == self@.0,
    {
        if self.name.len() == 0 {
            None
        } else {
            Some(&self.name)
        }
    }

    /// The record's value, or `None` where the engine supplied none.
    pub fn value(&self) -> (r: Option<&Vec<u8>>)
        ensures
            self@.1.len() == 0 <==> r is None,
            r matches Some(v) ==> v@ == self@.1,
    {
        if self.value.len() == 0 {
            None
        } else {
            Some(&self.value)
        }
    }
}

/// The records of `raw` as pairs of byte sequences.
pub open spec fn records_view(raw: Seq<Header>) -> Seq<(Seq<u8>, Seq<u8>)> {
    raw.map_values(|h: Header| h@)
}

/// The longest prefix of `raw` that holds no empty name, cut to `budget`
/// records.
pub open spec fn take_visible(raw: Seq<(Seq<u8>, Seq<u8>)>, budget: int) -> Seq<(Seq<u8>, Seq<u8>)>
    decreases raw.len(),
{
    if budget <= 0 || raw.len() == 0 {
        Seq::empty()
    } else if raw[0].0.len() == 0 {
        Seq::empty()
    } else {
        seq![raw[0]] + take_visible(raw.drop_first(), budget - 1)
    }
}

/// What the Header View shows of a raw buffer: the records before the first
/// empty name, and never more than `MAX_HEADERS` of them.
pub open spec fn header_view(raw: Seq<(Seq<u8>, Seq<u8>)>) -> Seq<(Seq<u8>, Seq<u8>)> {
    take_visible(raw, MAX_HEADERS as int)
}

proof fn lemma_take_visible_bound(raw: Seq<(Seq<u8>, Seq<u8>)>, budget: int)
    ensures
        take_visible(raw, budget).len() <= budget || budget < 0,
        take_visible(raw, budget).len() <= raw.len(),
        forall|i: int| 0 <= i < take_visible(raw, budget).len()
            ==> take_visible(raw, budget)[i] == raw[i] && raw[i].0.len() > 0,
    decreases raw.len(),
{
    if budget <= 0 || raw.len() == 0 || raw[0].0.len() == 0 {
    } else {
        lemma_take_visible_bound(raw.drop_first(), budget - 1);
        let t = take_visible(raw, budget);
        let rest = take_visible(raw.drop_first(), budget - 1);
        assert forall|i: int| 0 <= i < t.len() implies t[i] == raw[i] && raw[i].0.len() > 0 by {
            if i > 0 {
                assert(t[i] == rest[i - 1]);
                assert(raw.drop_first()[i - 1] == raw[i]);
            }
        }
    }
}

/// Header bound: whatever buffer the engine supplies, the view shows at most
/// `MAX_HEADERS` records, each one a record of the buffer itself, standing at
/// its own position, and none at or past the first empty name.
pub proof fn lemma_header_bound(raw: Seq<(Seq<u8>, Seq<u8>)>)
    ensures
        header_view(raw).len() <= MAX_HEADERS,
        header_view(raw).len() <= raw.len(),
        forall|i: int| 0 <= i < header_view(raw).len()
            ==> header_view(raw)[i] == raw[i] && raw[i].0.len() > 0,
{
    lemma_take_visible_bound(raw, MAX_HEADERS as int);
}

/// The value of the first visible record whose name matches `name` up to
/// ASCII case, if any.
pub open spec fn find_spec(s: Seq<(Seq<u8>, Seq<u8>)>, name: Seq<u8>) -> Option<Seq<u8>>
    decreases s.len(),
{
    if s.len() == 0 {
        None
    } else if lower_seq(s[0].0) == lower_seq(name) {
        Some(s[0].1)
    } else {
        find_spec(s.drop_first(), name)
    }
}

/// The Header View over one request's native header buffer.
pub struct Headers {
    records: Vec<Header>,
}

impl View for Headers {
    type V = Seq<(Seq<u8>, Seq<u8>)>;

    closed spec fn view(&self) -> Seq<(Seq<u8>, Seq<u8>)> {
        records_view(self.records@)
    }
}

impl Headers {
    /// Builds the view over the raw records of one request's buffer: stops at
    /// the first empty name or after `MAX_HEADERS` records, whichever comes
    /// first.
    pub fn from_raw(raw: Vec<Header>) -> (h: Headers)
        ensures
            h@ == header_view(records_view(raw@)),
    {
        let ghost orig: Seq<(Seq<u8>, Seq<u8>)> = records_view(raw@);
        let mut raw = raw;
        let mut records: Vec<Header> = Vec::new();
        proof {
            assert(records_view(records@) + take_visible(records_view(raw@), MAX_HEADERS as int)
                =~= header_view(orig));
        }
        loop
            invariant_except_break
                records@.len() <= MAX_HEADERS,
                header_view(orig) == records_view(records@) + take_visible(
                    records_view(raw@),
                    MAX_HEADERS - records@.len(),
                ),
            ensures
                header_view(orig) == records_view(records@),
            decreases raw@.len(),
        {
            if records.len() >= MAX_HEADERS || raw.len() == 0 {
                proof {
                    assert(take_visible(records_view(raw@), MAX_HEADERS - records@.len())
                        =~= Seq::<(Seq<u8>, Seq<u8>)>::empty());
                    assert(header_view(orig) =~= records_view(records@));
                }
                break;
            }
            let ghost prev = raw@;
            let rec = raw.remove(0);
            proof {
                assert(records_view(prev)[0] == rec@);
                assert(records_view(prev).drop_first() =~= records_view(raw@));
            }
            if rec.name.len() == 0 {
                proof {
                    assert(take_visible(records_view(prev), MAX_HEADERS - records@.len())
                        =~= Seq::<(Seq<u8>, Seq<u8>)>::empty());
                    assert(header_view(orig) =~= records_view(records@));
                }
                break;
            }
            proof {
                assert(take_visible(records_view(prev), MAX_HEADERS - records@.len()) =~= seq![
                    rec@,
                ] + take_visible(records_view(raw@), MAX_HEADERS - records@.len() - 1));
                assert(records_view(records@.push(rec)) =~= records_view(records@) + seq![rec@]);
                assert(header_view(orig) =~= records_view(records@.push(rec)) + take_visible(
                    records_view(raw@),
                    MAX_HEADERS - records@.push(rec).len(),
                ));
            }
            records.push(rec);
        }
        Headers { records }
    }

    /// How many records the view shows.
    pub fn len(&self) -> (n: usize)
        ensures
            n == self@.len(),
    {
        self.records.len()
    }

    /// The record at position `i` of the view.
    pub fn get(&self, i: usize) -> (h: &Header)
        requires
            i < self@.len(),
        ensures
            h@ == self@[i as int],
    {
        &self.records[i]
    }

    /// Looks a name up among the visible records, comparing names without
    /// regard to ASCII case, and returns the value of the first match.
    pub fn find(&self, name: &[u8]) -> (r: Option<&Vec<u8>>)
        ensures
            match r {
                Some(v) => find_spec(self@, name@) == Some(v@),
                None => find_spec(self@, name@) is None,
            },
    {
        let mut i: usize = 0;
        proof {
            assert(self@.skip(0) =~= self@);
        }
        while i < self.records.len()
            invariant
                i <= self@.len(),
                find_spec(self@, name@) == find_spec(self@.skip(i as int), name@),
            decreases self@.len() - i,
        {
            proof {
                assert(self@.skip(i as int)[0] == self@[i as int]);
                assert(self@.skip(i as int).drop_first() =~= self@.skip(i as int + 1));
            }
            if eq_ignore_ascii_case(self.records[i].name.as_slice(), name) {
                return Some(&self.records[i].value);
            }
            i += 1;
        }
        proof {
            assert(self@.skip(self@.len() as int) =~= Seq::<(Seq<u8>, Seq<u8>)>::empty());
        }
        None
    }
}

} // verus!
