use vstd::prelude::*;

verus! {

use vstd::string::StrSliceExecFns;
use vstd::string::StringExecFns;
use vstd::string::StringSliceAdditionalSpecFns;

/// Why a header mutation was rejected.
#[derive(Clone, Copy, Debug, PartialEq, Eq, Structural)]
pub enum HeaderError {
    /// The name is empty or holds a character outside the token set.
    InvalidName,
    /// The value holds a control character other than horizontal tab.
    InvalidValue,
}

/// ASCII uppercase letters fold to lowercase; everything else is kept.
pub open spec fn lower_byte(b: u8) -> u8 {
    if 65 <= b && b <= 90 {
        (b + 32) as u8
    } else {
        b
    }
}

/// `s` with ASCII uppercase letters folded to lowercase.
pub open spec fn lower_bytes(s: Seq<u8>) -> Seq<u8> {
    s.map_values(|b: u8| lower_byte(b))
}

/// The token characters permitted in a header name.
pub open spec fn token_byte(b: u8) -> bool {
    ||| 97 <= b && b <= 122
    ||| 65 <= b && b <= 90
    ||| 48 <= b && b <= 57
    ||| b == 33 || b == 35 || b == 36 || b == 37 || b == 38 || b == 39
    ||| b == 42 || b == 43 || b == 45 || b == 46 || b == 94 || b == 95
    ||| b == 96 || b == 124 || b == 126
}

/// A header name is a non-empty run of token characters.
pub open spec fn valid_header_name(s: Seq<u8>) -> bool {
    s.len() > 0 && forall|i: int| 0 <= i < s.len() ==> token_byte(s[i])
}

/// A header value may hold horizontal tab, the visible ASCII characters,
/// and anything beyond ASCII; other control characters are rejected.
pub open spec fn ok_value_char(c: char) -> bool {
    c as u32 == 9 || (32 <= c as u32 && c as u32 <= 126) || c as u32 >= 128
}

/// Whether every character of `s` may stand in a header value.
pub open spec fn valid_header_value(s: Seq<char>) -> bool {
    forall|i: int| 0 <= i < s.len() ==> ok_value_char(s[i])
}

/// ASCII bytes, read as characters.
pub open spec fn name_chars(n: Seq<u8>) -> Seq<char> {
    n.map_values(|b: u8| b as char)
}

/// The value of an `Option<String>`, as a character sequence.
pub open spec fn opt_view(r: Option<String>) -> Option<Seq<char>> {
    match r {
        Some(s) => Some(s@),
        None => None,
    }
}

/// One stored header: a lowercased token name and its value.
#[derive(Debug)]
struct HeaderEntry {
    name: Vec<u8>,
    value: String,
}

/// The first value among the first `i` entries whose name is `key`.
pub open spec fn found_upto(es: Seq<(Seq<u8>, Seq<char>)>, key: Seq<u8>, i: int) -> Option<
    Seq<char>,
>
    decreases i,
{
    if i <= 0 {
        None
    } else {
        let prev = found_upto(es, key, i - 1);
        if prev is Some {
            prev
        } else if es[i - 1].0 == key {
            Some(es[i - 1].1)
        } else {
            None
        }
    }
}

/// The first value stored under `key`.
pub open spec fn spec_get(es: Seq<(Seq<u8>, Seq<char>)>, key: Seq<u8>) -> Option<Seq<char>> {
    found_upto(es, key, es.len() as int)
}

/// The values among the first `i` entries whose name is `key`, in order.
pub open spec fn all_upto(es: Seq<(Seq<u8>, Seq<char>)>, key: Seq<u8>, i: int) -> Seq<Seq<char>>
    decreases i,
{
    if i <= 0 {
        Seq::empty()
    } else if es[i - 1].0 == key {
        all_upto(es, key, i - 1).push(es[i - 1].1)
    } else {
        all_upto(es, key, i - 1)
    }
}

/// Every value stored under `key`, in insertion order.
pub open spec fn spec_get_all(es: Seq<(Seq<u8>, Seq<char>)>, key: Seq<u8>) -> Seq<Seq<char>> {
    all_upto(es, key, es.len() as int)
}

/// Whether any entry stores `key`.
pub open spec fn spec_contains(es: Seq<(Seq<u8>, Seq<char>)>, key: Seq<u8>) -> bool {
    spec_get(es, key) is Some
}

/// The first `i` entries whose name is not `key`, in order.
pub open spec fn kept_upto(es: Seq<(Seq<u8>, Seq<char>)>, key: Seq<u8>, i: int) -> Seq<
    (Seq<u8>, Seq<char>),
>
    decreases i,
{
    if i <= 0 {
        Seq::empty()
    } else if es[i - 1].0 == key {
        kept_upto(es, key, i - 1)
    } else {
        kept_upto(es, key, i - 1).push(es[i - 1])
    }
}

/// The entries that survive removing `key`.
pub open spec fn spec_remove_entries(es: Seq<(Seq<u8>, Seq<char>)>, key: Seq<u8>) -> Seq<
    (Seq<u8>, Seq<char>),
> {
    kept_upto(es, key, es.len() as int)
}

/// The distinct names among the first `i` entries, in order of first
/// occurrence.
pub open spec fn keys_upto(es: Seq<(Seq<u8>, Seq<char>)>, i: int) -> Seq<Seq<u8>>
    decreases i,
{
    if i <= 0 {
        Seq::empty()
    } else {
        let prev = keys_upto(es, i - 1);
        if prev.contains(es[i - 1].0) {
            prev
        } else {
            prev.push(es[i - 1].0)
        }
    }
}

/// The distinct header names, in order of first insertion.
pub open spec fn spec_keys(es: Seq<(Seq<u8>, Seq<char>)>) -> Seq<Seq<u8>> {
    keys_upto(es, es.len() as int)
}

/// The rendering of the first `i` entries, one `name: value` line each.
pub open spec fn render_upto(es: Seq<(Seq<u8>, Seq<char>)>, i: int) -> Seq<char>
    decreases i,
{
    if i <= 0 {
        Seq::empty()
    } else {
        render_upto(es, i - 1) + name_chars(es[i - 1].0) + ": "@ + es[i - 1].1 + "\n"@
    }
}

/// The full rendering, one `name: value` line per entry.
pub open spec fn spec_render(es: Seq<(Seq<u8>, Seq<char>)>) -> Seq<char> {
    render_upto(es, es.len() as int)
}

/// A stored entry is well formed: a non-empty, already-lowercased token
/// name and a permitted value.
pub open spec fn entry_ok(e: (Seq<u8>, Seq<char>)) -> bool {
    valid_header_name(e.0) && e.0 == lower_bytes(e.0) && valid_header_value(e.1)
}

/// Relies on `String::from_utf8`: ASCII bytes are valid UTF-8 and decode
/// to exactly those characters.
#[verifier::external_body]
fn ascii_string(v: Vec<u8>) -> (s: String)
    requires
        forall|i: int| 0 <= i < v@.len() ==> v@[i] < 128,
    ensures
        s@ == v@.map_values(|b: u8| b as char),
{
    match String::from_utf8(v) {
        Ok(s) => s,
        Err(_) => String::new(),
    }
}

/// Whether two byte vectors hold the same bytes.
fn bytes_eq(a: &Vec<u8>, b: &Vec<u8>) -> (r: bool)
    ensures
        r == (a@ == b@),
{
    if a.len() != b.len() {
        assert(a@ != b@);
        return false;
    }
    let mut i: usize = 0;
    while i < a.len()
        invariant
            i <= a@.len(),
            a@.len() == b@.len(),
            forall|j: int| 0 <= j < i ==> a@[j] == b@[j],
        decreases a@.len() - i,
    {
        if a[i] != b[i] {
            return false;
        }
        i = i + 1;
    }
    proof {
        assert(a@ =~= b@);
    }
    true
}

/// Validate a header name and fold it to lowercase.  `None` means the name
/// is rejected.
fn lower_name(name: &str) -> (r: Option<Vec<u8>>)
    ensures
        match r {
            Some(v) => valid_header_name(name.spec_bytes()) && v@ == lower_bytes(
                name.spec_bytes(),
            ),
            None => !valid_header_name(name.spec_bytes()),
        },
{
    let bytes = name.as_bytes_vec();
    if bytes.len() == 0 {
        return None;
    }
    let mut out: Vec<u8> = Vec::new();
    let mut i: usize = 0;
    while i < bytes.len()
        invariant
            i <= bytes@.len(),
            bytes@ == name.spec_bytes(),
            forall|j: int| 0 <= j < i ==> token_byte(bytes@[j]),
            out@ == lower_bytes(bytes@.take(i as int)),
        decreases bytes@.len() - i,
    {
        let b = bytes[i];
        let ok = (97 <= b && b <= 122) || (65 <= b && b <= 90) || (48 <= b && b <= 57)
            || b == 33 || b == 35 || b == 36 || b == 37 || b == 38 || b == 39 || b
            == 42 || b == 43 || b == 45 || b == 46 || b == 94 || b == 95 || b == 96
            || b == 124 || b == 126;
        if !ok {
            assert(!token_byte(bytes@[i as int]));
            return None;
        }
        if 65 <= b && b <= 90 {
            out.push(b + 32);
        } else {
            out.push(b);
        }
        proof {
            assert(out@ =~= lower_bytes(bytes@.take(i as int + 1)));
        }
        i = i + 1;
    }
    proof {
        assert(bytes@.take(bytes@.len() as int) =~= bytes@);
    }
    Some(out)
}

/// Whether every character of `value` may stand in a header value.
fn check_value(value: &str) -> (r: bool)
    ensures
        r == valid_header_value(value@),
{
    let n = value.unicode_len();
    let mut i: usize = 0;
    while i < n
        invariant
            i <= n,
            n == value@.len(),
            forall|j: int| 0 <= j < i ==> ok_value_char(value@[j]),
        decreases n - i,
    {
        let c = value.get_char(i);
        let u = c as u32;
        if !(u == 9 || (32 <= u && u <= 126) || u >= 128) {
            assert(!ok_value_char(value@[i as int]));
            return false;
        }
        i = i + 1;
    }
    true
}

/// An HTTP header collection: a multimap from case-insensitive token names
/// to values, preserving insertion order.
///
/// Names are folded to lowercase when stored, so every lookup is
/// case-insensitive; `set` replaces all values of a name, `append` adds one
/// more.
#[derive(Debug)]
pub struct Headers {
    items: Vec<HeaderEntry>,
}

impl View for Headers {
    type V = Seq<(Seq<u8>, Seq<char>)>;

    closed spec fn view(&self) -> Seq<(Seq<u8>, Seq<char>)> {
        self.items@.map_values(|e: HeaderEntry| (e.name@, e.value@))
    }
}

impl Headers {
    /// Every stored entry is well formed.
    pub open spec fn well_formed(&self) -> bool {
        forall|i: int| 0 <= i < self@.len() ==> entry_ok(#[trigger] self@[i])
    }

    /// Create an empty header collection.
    pub fn new() -> (h: Headers)
        ensures
            h.well_formed(),
            h@ == Seq::<(Seq<u8>, Seq<char>)>::empty(),
    {
        let h = Headers { items: Vec::new() };
        proof {
            assert(h@ =~= Seq::<(Seq<u8>, Seq<char>)>::empty());
        }
        h
    }

    /// The number of stored name-value pairs.
    pub fn len(&self) -> (r: usize)
        ensures
            r == self@.len(),
    {
        self.items.len()
    }

    /// Whether no header is stored.
    pub fn is_empty(&self) -> (r: bool)
        ensures
            r == (self@.len() == 0),
    {
        self.items.is_empty()
    }

    /// Remove every stored header.
    pub fn clear(&mut self)
        ensures
            final(self).well_formed(),
            final(self)@ == Seq::<(Seq<u8>, Seq<char>)>::empty(),
    {
        self.items.clear();
        proof {
            assert(self@ =~= Seq::<(Seq<u8>, Seq<char>)>::empty());
        }
    }

    /// Whether a header with this name is stored (case-insensitive).
    pub fn contains(&self, name: &str) -> (r: bool)
        ensures
            r == spec_contains(self@, lower_bytes(name.spec_bytes())),
    {
        match self.get_value(name) {
            Some(_) => true,
            None => false,
        }
    }

    /// The first value stored under this name (case-insensitive).
    pub fn get(&self, name: &str) -> (r: Option<String>)
        ensures
            opt_view(r) == spec_get(self@, lower_bytes(name.spec_bytes())),
    {
        self.get_value(name)
    }

    fn get_value(&self, name: &str) -> (r: Option<String>)
        ensures
            opt_view(r) == spec_get(self@, lower_bytes(name.spec_bytes())),
    {
        let key = lower_all(name);
        let mut acc: Option<String> = None;
        let mut i: usize = 0;
        while i < self.items.len()
            invariant
                i <= self.items@.len(),
                key@ == lower_bytes(name.spec_bytes()),
                opt_view(acc) == found_upto(self@, key@, i as int),
            decreases self.items@.len() - i,
        {
            if acc.is_none() && bytes_eq(&self.items[i].name, &key) {
                acc = Some(self.items[i].value.clone());
            }
            i = i + 1;
        }
        acc
    }

    /// Every value stored under this name, in insertion order.
    pub fn get_all(&self, name: &str) -> (r: Vec<String>)
        ensures
            r@.map_values(|s: String| s@) == spec_get_all(self@, lower_bytes(name.spec_bytes())),
    {
        let key = lower_all(name);
        let mut acc: Vec<String> = Vec::new();
        let mut i: usize = 0;
        while i < self.items.len()
            invariant
                i <= self.items@.len(),
                key@ == lower_bytes(name.spec_bytes()),
                acc@.map_values(|s: String| s@) == all_upto(self@, key@, i as int),
            decreases self.items@.len() - i,
        {
            if bytes_eq(&self.items[i].name, &key) {
                let ghost prev = acc@;
                acc.push(self.items[i].value.clone());
                proof {
                    assert(acc@.map_values(|s: String| s@) =~= prev.map_values(
                        |s: String| s@,
                    ).push(self@[i as int].1));
                }
            }
            i = i + 1;
        }
        acc
    }

    /// Replace every value of this name with the one given; the entry moves
    /// to the end of the insertion order.  Rejects an invalid name or value
    /// without changing anything.
    pub fn set(&mut self, name: &str, value: &str) -> (r: Result<(), HeaderError>)
        requires
            old(self).well_formed(),
        ensures
            final(self).well_formed(),
            r is Ok <==> valid_header_name(name.spec_bytes()) && valid_header_value(value@),
            r is Ok ==> final(self)@ == spec_remove_entries(
                old(self)@,
                lower_bytes(name.spec_bytes()),
            ).push((lower_bytes(name.spec_bytes()), value@)),
            r matches Err(e) ==> final(self)@ == old(self)@ && (e is InvalidName
                <==> !valid_header_name(name.spec_bytes())),
    {
        let key = match lower_name(name) {
            Some(k) => k,
            None => {
                return Err(HeaderError::InvalidName);
            },
        };
        if !check_value(value) {
            return Err(HeaderError::InvalidValue);
        }
        let _ = self.remove_key(&key);
        let ghost removed = self@;
        self.items.push(HeaderEntry { name: key, value: value.to_owned() });
        proof {
            assert(self@ =~= removed.push((lower_bytes(name.spec_bytes()), value@)));
            lemma_lower_name_ok(name.spec_bytes());
            assert forall|i: int| 0 <= i < self@.len() implies entry_ok(#[trigger] self@[i]) by {
                if i < removed.len() {
                    assert(entry_ok(removed[i]));
                }
            }
        }
        Ok(())
    }

    /// Add one more value under this name, after any existing values.
    /// Rejects an invalid name or value without changing anything.
    pub fn append(&mut self, name: &str, value: &str) -> (r: Result<(), HeaderError>)
        requires
            old(self).well_formed(),
        ensures
            final(self).well_formed(),
            r is Ok <==> valid_header_name(name.spec_bytes()) && valid_header_value(value@),
            r is Ok ==> final(self)@ == old(self)@.push(
                (lower_bytes(name.spec_bytes()), value@),
            ),
            r matches Err(e) ==> final(self)@ == old(self)@ && (e is InvalidName
                <==> !valid_header_name(name.spec_bytes())),
    {
        let key = match lower_name(name) {
            Some(k) => k,
            None => {
                return Err(HeaderError::InvalidName);
            },
        };
        if !check_value(value) {
            return Err(HeaderError::InvalidValue);
        }
        self.items.push(HeaderEntry { name: key, value: value.to_owned() });
        proof {
            assert(self@ =~= old(self)@.push((lower_bytes(name.spec_bytes()), value@)));
            lemma_lower_name_ok(name.spec_bytes());
            assert forall|i: int| 0 <= i < self@.len() implies entry_ok(#[trigger] self@[i]) by {
                if i < old(self)@.len() {
                    assert(entry_ok(old(self)@[i]));
                }
            }
        }
        Ok(())
    }

    /// Remove every value of this name (case-insensitive); the first
    /// removed value is handed back.
    pub fn remove(&mut self, name: &str) -> (r: Option<String>)
        requires
            old(self).well_formed(),
        ensures
            final(self).well_formed(),
            final(self)@ == spec_remove_entries(old(self)@, lower_bytes(name.spec_bytes())),
            opt_view(r) == spec_get(old(self)@, lower_bytes(name.spec_bytes())),
    {
        let key = lower_all(name);
        self.remove_key(&key)
    }

    fn remove_key(&mut self, key: &Vec<u8>) -> (r: Option<String>)
        requires
            old(self).well_formed(),
        ensures
            final(self).well_formed(),
            final(self)@ == spec_remove_entries(old(self)@, key@),
            opt_view(r) == spec_get(old(self)@, key@),
    {
        let mut kept: Vec<HeaderEntry> = Vec::new();
        let mut first: Option<String> = None;
        let mut i: usize = 0;
        while i < self.items.len()
            invariant
                i <= self.items@.len(),
                old(self).well_formed(),
                self@ == old(self)@,
                self.items@ == old(self).items@,
                kept@.map_values(|e: HeaderEntry| (e.name@, e.value@)) == kept_upto(
                    self@,
                    key@,
                    i as int,
                ),
                opt_view(first) == found_upto(self@, key@, i as int),
            decreases self.items@.len() - i,
        {
            let matches_key = bytes_eq(&self.items[i].name, key);
            if matches_key {
                if first.is_none() {
                    first = Some(self.items[i].value.clone());
                }
            } else {
                let ghost prev = kept@;
                let nm = vstd::slice::slice_to_vec(self.items[i].name.as_slice());
                let vl = self.items[i].value.clone();
                kept.push(HeaderEntry { name: nm, value: vl });
                proof {
                    assert(kept@.map_values(|e: HeaderEntry| (e.name@, e.value@)) =~= prev
                        .map_values(|e: HeaderEntry| (e.name@, e.value@)).push(self@[i as int]));
                }
            }
            i = i + 1;
        }
        self.items = kept;
        proof {
            assert forall|j: int| 0 <= j < self@.len() implies entry_ok(#[trigger] self@[j]) by {
                lemma_kept_entries_ok(old(self)@, key@, old(self)@.len() as int, j);
            }
        }
        first
    }

    /// The distinct header names, as strings, in order of first insertion.
    pub fn keys(&self) -> (r: Vec<String>)
        requires
            self.well_formed(),
        ensures
            r@.map_values(|s: String| s@) == spec_keys(self@).map_values(|n: Seq<u8>| name_chars(n)),
    {
        let mut names: Vec<Vec<u8>> = Vec::new();
        let mut i: usize = 0;
        while i < self.items.len()
            invariant
                i <= self.items@.len(),
                self.well_formed(),
                names@.map_values(|n: Vec<u8>| n@) == keys_upto(self@, i as int),
            decreases self.items@.len() - i,
        {
            let mut seen = false;
            let mut j: usize = 0;
            while j < names.len()
                invariant
                    j <= names@.len(),
                    i < self.items@.len(),
                    seen == exists|k: int|
                        0 <= k < j && (#[trigger] names@[k])@ == self@[i as int].0,
                decreases names@.len() - j,
            {
                if bytes_eq(&names[j], &self.items[i].name) {
                    seen = true;
                }
                j = j + 1;
            }
            proof {
                let key0 = self@[i as int].0;
                let mapped = names@.map_values(|n: Vec<u8>| n@);
                if seen {
                    let k = choose|k: int|
                        0 <= k < names@.len() && (#[trigger] names@[k])@ == key0;
                    assert(mapped[k] == key0);
                    assert(mapped.contains(key0));
                } else {
                    if mapped.contains(key0) {
                        let k = choose|k: int| 0 <= k < mapped.len() && mapped[k] == key0;
                        assert(names@[k]@ == key0);
                    }
                }
                assert(seen == keys_upto(self@, i as int).contains(key0));
            }
            if !seen {
                let ghost prev = names@;
                names.push(vstd::slice::slice_to_vec(self.items[i].name.as_slice()));
                proof {
                    assert(names@.map_values(|n: Vec<u8>| n@) =~= prev.map_values(
                        |n: Vec<u8>| n@,
                    ).push(self@[i as int].0));
                }
            }
            i = i + 1;
        }
        let ghost keyseq = spec_keys(self@);
        proof {
            lemma_keys_are_names(self@, self@.len() as int);
            assert forall|k: int| 0 <= k < keyseq.len() implies valid_header_name(
                #[trigger] keyseq[k],
            ) by {
                let m = choose|m: int| 0 <= m < self@.len() && #[trigger] keyseq[k] == self@[m].0;
                assert(entry_ok(self@[m]));
            }
        }
        let mut out: Vec<String> = Vec::new();
        let mut i2: usize = 0;
        while i2 < names.len()
            invariant
                i2 <= names@.len(),
                names@.map_values(|n: Vec<u8>| n@) == keyseq,
                forall|k: int| 0 <= k < keyseq.len() ==> valid_header_name(#[trigger] keyseq[k]),
                out@.map_values(|s: String| s@) == keyseq.map_values(
                    |n: Seq<u8>| name_chars(n),
                ).take(i2 as int),
            decreases names@.len() - i2,
        {
            proof {
                assert(keyseq[i2 as int] == names@.map_values(|n: Vec<u8>| n@)[i2 as int]);
                assert forall|k: int|
                    0 <= k < names@[i2 as int]@.len() implies names@[i2 as int]@[k] < 128 by {
                    assert(token_byte(keyseq[i2 as int][k]));
                }
            }
            let ghost prev = out@;
            let s = ascii_string(vstd::slice::slice_to_vec(names[i2].as_slice()));
            out.push(s);
            proof {
                let lhs = out@.map_values(|s: String| s@);
                let mapped = keyseq.map_values(|n: Seq<u8>| name_chars(n));
                let rhs = mapped.take(i2 as int + 1);
                assert(names@.map_values(|n: Vec<u8>| n@).len() == names@.len());
                assert(mapped.len() == keyseq.len());
                assert(prev.map_values(|s: String| s@).len() == prev.len());
                assert(prev.len() == i2 as int);
                assert(out@ == prev.push(out@[i2 as int]));
                assert(lhs.len() == rhs.len());
                assert forall|k: int| 0 <= k < lhs.len() implies lhs[k] == rhs[k] by {
                    if k < i2 as int {
                        assert(lhs[k] == prev.map_values(|s: String| s@)[k]);
                        assert(rhs[k] == keyseq.map_values(|n: Seq<u8>| name_chars(n)).take(
                            i2 as int,
                        )[k]);
                    } else {
                        assert(out@[k]@ =~= name_chars(keyseq[k]));
                        assert(rhs[k] == name_chars(keyseq[k]));
                    }
                }
                assert(lhs =~= rhs);
            }
            i2 = i2 + 1;
        }
        proof {
            assert(keyseq.map_values(|n: Seq<u8>| name_chars(n)).take(names@.len() as int)
                =~~= keyseq.map_values(|n: Seq<u8>| name_chars(n)));
        }
        out
    }

    /// Every stored value, in insertion order.
    pub fn values(&self) -> (r: Vec<String>)
        ensures
            r@.map_values(|s: String| s@) == self@.map_values(|e: (Seq<u8>, Seq<char>)| e.1),
    {
        let mut out: Vec<String> = Vec::new();
        let mut i: usize = 0;
        while i < self.items.len()
            invariant
                i <= self.items@.len(),
                out@.map_values(|s: String| s@) == self@.map_values(
                    |e: (Seq<u8>, Seq<char>)| e.1,
                ).take(i as int),
            decreases self.items@.len() - i,
        {
            let ghost prev = out@;
            out.push(self.items[i].value.clone());
            proof {
                let lhs = out@.map_values(|s: String| s@);
                let mapped = self@.map_values(|e: (Seq<u8>, Seq<char>)| e.1);
                let rhs = mapped.take(i as int + 1);
                assert(self@.len() == self.items@.len());
                assert(mapped.len() == self@.len());
                assert(prev.map_values(|s: String| s@).len() == prev.len());
                assert(prev.len() == i as int);
                assert(out@ == prev.push(out@[i as int]));
                assert(lhs.len() == rhs.len());
                assert forall|k: int| 0 <= k < lhs.len() implies lhs[k] == rhs[k] by {
                    if k < i as int {
                        assert(lhs[k] == prev.map_values(|s: String| s@)[k]);
                        assert(rhs[k] == self@.map_values(|e: (Seq<u8>, Seq<char>)| e.1).take(
                            i as int,
                        )[k]);
                    } else {
                        assert(out@[k]@ == self@[k].1);
                    }
                }
                assert(lhs =~= rhs);
            }
            i = i + 1;
        }
        proof {
            assert(self@.map_values(|e: (Seq<u8>, Seq<char>)| e.1).take(self.items@.len() as int)
                =~~= self@.map_values(|e: (Seq<u8>, Seq<char>)| e.1));
        }
        out
    }

    /// Render the headers one `name: value` line at a time.
    pub fn to_s(&self) -> (r: String)
        requires
            self.well_formed(),
        ensures
            r@ == spec_render(self@),
    {
        let mut out = String::new();
        let mut i: usize = 0;
        while i < self.items.len()
            invariant
                i <= self.items@.len(),
                self.well_formed(),
                out@ == render_upto(self@, i as int),
            decreases self.items@.len() - i,
        {
            proof {
                assert(entry_ok(self@[i as int]));
                assert forall|k: int| 0 <= k < self.items@[i as int].name@.len() implies self
                    .items@[i as int].name@[k] < 128 by {
                    assert(token_byte(self@[i as int].0[k]));
                }
            }
            let nm = ascii_string(vstd::slice::slice_to_vec(self.items[i].name.as_slice()));
            out.append(nm.as_str());
            out.append(": ");
            out.append(self.items[i].value.as_str());
            out.append("\n");
            i = i + 1;
        }
        out
    }
}

/// A valid name stays a valid name under lowercase folding, and folding
/// twice is folding once.
proof fn lemma_lower_name_ok(s: Seq<u8>)
    requires
        valid_header_name(s),
    ensures
        valid_header_name(lower_bytes(s)),
        lower_bytes(lower_bytes(s)) == lower_bytes(s),
{
    assert forall|i: int| 0 <= i < lower_bytes(s).len() implies token_byte(
        #[trigger] lower_bytes(s)[i],
    ) && lower_byte(lower_bytes(s)[i]) == lower_bytes(s)[i] by {
        assert(token_byte(s[i]));
    }
    assert(lower_bytes(lower_bytes(s)) =~= lower_bytes(s));
}

/// Every entry surviving a removal was a stored entry, so it is well
/// formed.
proof fn lemma_kept_entries_ok(es: Seq<(Seq<u8>, Seq<char>)>, key: Seq<u8>, i: int, j: int)
    requires
        forall|k: int| 0 <= k < es.len() ==> entry_ok(#[trigger] es[k]),
        i <= es.len(),
        0 <= j < kept_upto(es, key, i).len(),
    ensures
        entry_ok(kept_upto(es, key, i)[j]),
    decreases i,
{
    if i > 0 {
        if !(es[i - 1].0 == key) && j == kept_upto(es, key, i - 1).len() {
        } else {
            lemma_kept_entries_ok(es, key, i - 1, j);
        }
    }
}

/// Every collected key is the name of some stored entry.
proof fn lemma_keys_are_names(es: Seq<(Seq<u8>, Seq<char>)>, i: int)
    requires
        i <= es.len(),
    ensures
        forall|k: int|
            0 <= k < keys_upto(es, i).len() ==> exists|m: int|
                0 <= m < i && #[trigger] keys_upto(es, i)[k] == es[m].0,
    decreases i,
{
    if i > 0 {
        lemma_keys_are_names(es, i - 1);
        let prev = keys_upto(es, i - 1);
        assert forall|k: int| 0 <= k < keys_upto(es, i).len() implies exists|m: int|
            0 <= m < i && #[trigger] keys_upto(es, i)[k] == es[m].0 by {
            if k < prev.len() {
                assert(keys_upto(es, i)[k] == prev[k]);
                let m = choose|m: int| 0 <= m < i - 1 && prev[k] == es[m].0;
                assert(0 <= m < i && keys_upto(es, i)[k] == es[m].0);
            } else {
                assert(keys_upto(es, i)[k] == es[i - 1].0);
            }
        }
    }
}

/// Validate nothing: just fold the name to lowercase for lookups.
fn lower_all(name: &str) -> (r: Vec<u8>)
    ensures
        r@ == lower_bytes(name.spec_bytes()),
{
    let bytes = name.as_bytes_vec();
    let mut out: Vec<u8> = Vec::new();
    let mut i: usize = 0;
    while i < bytes.len()
        invariant
            i <= bytes@.len(),
            bytes@ == name.spec_bytes(),
            out@ == lower_bytes(bytes@.take(i as int)),
        decreases bytes@.len() - i,
    {
        let b = bytes[i];
        if 65 <= b && b <= 90 {
            out.push(b + 32);
        } else {
            out.push(b);
        }
        proof {
            assert(out@ =~= lower_bytes(bytes@.take(i as int + 1)));
        }
        i = i + 1;
    }
    proof {
        assert(bytes@.take(bytes@.len() as int) =~= bytes@);
    }
    out
}

} // verus!
