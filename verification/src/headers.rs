//! A model of an HTTP header map: an ordered list of name/value pairs of
//! bytes. Lookup is by name, ASCII-case-insensitively, and yields the first
//! value carried under that name, as host header maps do.

use crate::media_type::{lower_seq, to_lower};
use vstd::prelude::*;

verus! {

/// One header line: a name and a raw value.
pub struct HeaderEntry {
    pub name: Vec<u8>,
    pub value: Vec<u8>,
}

/// An ordered list of header lines.
pub struct Headers {
    pub entries: Vec<HeaderEntry>,
}

impl View for Headers {
    type V = Seq<(Seq<u8>, Seq<u8>)>;

    open spec fn view(&self) -> Seq<(Seq<u8>, Seq<u8>)> {
        self.entries@.map_values(|e: HeaderEntry| (e.name@, e.value@))
    }
}

/// The first value carried under `name` in `h`, where `name` is given in
/// lower case and entry names are compared to it ASCII-case-insensitively.
pub open spec fn first_value(h: Seq<(Seq<u8>, Seq<u8>)>, name: Seq<u8>) -> Option<Seq<u8>>
    decreases h.len(),
{
    if h.len() == 0 {
        None
    } else if lower_seq(h[0].0) == name {
        Some(h[0].1)
    } else {
        first_value(h.drop_first(), name)
    }
}

/// A lookup comes up empty exactly when no entry carries the name,
/// whatever the case its entries were written in.
pub proof fn lemma_first_value_none_iff_absent(h: Seq<(Seq<u8>, Seq<u8>)>, name: Seq<u8>)
    ensures
        first_value(h, name) is None <==> (forall|i: int|
            0 <= i < h.len() ==> lower_seq((#[trigger] h[i]).0) != name),
    decreases h.len(),
{
    if h.len() > 0 {
        let t = h.drop_first();
        lemma_first_value_none_iff_absent(t, name);
        if lower_seq(h[0].0) == name {
        } else {
            if first_value(t, name) is None {
                assert forall|i: int| 0 <= i < h.len() implies lower_seq(
                    (#[trigger] h[i]).0,
                ) != name by {
                    if i > 0 {
                        assert(t[i - 1] == h[i]);
                    }
                }
            } else {
                if forall|i: int| 0 <= i < h.len() ==> lower_seq((#[trigger] h[i]).0) != name {
                    assert forall|i: int| 0 <= i < t.len() implies lower_seq(
                        (#[trigger] t[i]).0,
                    ) != name by {
                        assert(t[i] == h[i + 1]);
                    }
                }
            }
        }
    }
}

/// The `content-type` header name.
pub open spec fn content_type_name() -> Seq<u8> {
    seq![0x63u8, 0x6f, 0x6e, 0x74, 0x65, 0x6e, 0x74, 0x2d, 0x74, 0x79, 0x70, 0x65]
}

fn content_type_name_x() -> (r: Vec<u8>)
    ensures
        r@ == content_type_name(),
{
    let mut n: Vec<u8> = Vec::new();
    n.push(0x63);  // c
    n.push(0x6f);  // o
    n.push(0x6e);  // n
    n.push(0x74);  // t
    n.push(0x65);  // e
    n.push(0x6e);  // n
    n.push(0x74);  // t
    n.push(0x2d);  // -
    n.push(0x74);  // t
    n.push(0x79);  // y
    n.push(0x70);  // p
    n.push(0x65);  // e
    proof {
        assert(n@ =~= content_type_name());
    }
    n
}

/// Folds `a` to ASCII lower case and compares it with `b`.
fn lower_eq(a: &[u8], b: &[u8]) -> (r: bool)
    ensures
        r == (lower_seq(a@) == b@),
{
    if a.len() != b.len() {
        assert(lower_seq(a@).len() != b@.len());
        return false;
    }
    let mut i: usize = 0;
    while i < a.len()
        invariant
            i <= a@.len() == b@.len(),
            forall|k: int| 0 <= k < i ==> to_lower(a@[k]) == b@[k],
        decreases a@.len() - i,
    {
        let la = if 0x41 <= a[i] && a[i] <= 0x5a {
            a[i] + 0x20
        } else {
            a[i]
        };
        if la != b[i] {
            assert(lower_seq(a@)[i as int] != b@[i as int]);
            return false;
        }
        i = i + 1;
    }
    proof {
        assert(lower_seq(a@) =~= b@);
    }
    true
}

impl Headers {
    /// An empty header map.
    pub fn new() -> (r: Headers)
        ensures
            r@ =~= Seq::<(Seq<u8>, Seq<u8>)>::empty(),
    {
        Headers { entries: Vec::new() }
    }

    /// Appends one header line.
    pub fn push(&mut self, name: Vec<u8>, value: Vec<u8>)
        ensures
            final (self)@ =~= old(self)@.push((name@, value@)),
    {
        self.entries.push(HeaderEntry { name, value });
    }

    /// The first `Content-Type` value, whatever the case of the header name
    /// it was carried under.
    pub fn content_type_value(&self) -> (r: Option<&Vec<u8>>)
        ensures
            match r {
                Some(v) => first_value(self@, content_type_name()) == Some(v@),
                None => first_value(self@, content_type_name()) is None,
            },
    {
        let ct = content_type_name_x();
        let n = self.entries.len();
        let mut i: usize = 0;
        proof {
            assert(self@.subrange(0, n as int) =~= self@);
        }
        while i < n
            invariant
                i <= n == self.entries@.len(),
                first_value(self@, content_type_name()) == first_value(
                    self@.subrange(i as int, n as int),
                    content_type_name(),
                ),
                ct@ == content_type_name(),
            decreases n - i,
        {
            let e = &self.entries[i];
            proof {
                assert(self@.subrange(i as int, n as int)[0] == (e.name@, e.value@));
                assert(self@.subrange(i as int, n as int).drop_first() =~= self@.subrange(
                    i + 1,
                    n as int,
                ));
            }
            if lower_eq(e.name.as_slice(), ct.as_slice()) {
                return Some(&e.value);
            }
            i = i + 1;
        }
        None
    }
}

} // verus!
