//! The `application/x-www-form-urlencoded` body grammar: pairs separated by
//! `&`, a name and a value separated by the first `=`, `+` standing for a
//! space and `%XX` for the byte with hexadecimal value `XX`.
use vstd::prelude::*;

verus! {

/// `&`, which separates pairs.
pub const AMPERSAND: u8 = 0x26;
/// `=`, which separates a name from its value.
pub const EQUALS: u8 = 0x3d;
/// `+`, which stands for a space.
pub const PLUS: u8 = 0x2b;
/// `%`, which opens an escaped byte.
pub const PERCENT: u8 = 0x25;
/// A space.
pub const SPACE: u8 = 0x20;

/// Whether `b` is an ASCII hexadecimal digit.
pub open spec fn is_hex_digit(b: u8) -> bool {
    (0x30 <= b && b <= 0x39) || (0x41 <= b && b <= 0x46) || (0x61 <= b && b <= 0x66)
}

/// The value of a hexadecimal digit.
pub open spec fn hex_value(b: u8) -> int {
    if b <= 0x39 {
        b - 0x30
    } else if b <= 0x46 {
        b - 0x41 + 10
    } else {
        b - 0x61 + 10
    }
}

/// One name or value after decoding: `+` becomes a space, `%` followed by two
/// hexadecimal digits becomes that byte, and every other byte (a `%` without
/// two digits after it included) stays as it is.
pub open spec fn decode_component(s: Seq<u8>) -> Seq<u8>
    decreases s.len(),
{
    if s.len() == 0 {
        seq![]
    } else if s[0] == PLUS {
        seq![SPACE] + decode_component(s.skip(1))
    } else if s[0] == PERCENT && s.len() >= 3 && is_hex_digit(s[1]) && is_hex_digit(s[2]) {
        seq![(hex_value(s[1]) * 16 + hex_value(s[2])) as u8] + decode_component(s.skip(3))
    } else {
        seq![s[0]] + decode_component(s.skip(1))
    }
}

/// The pieces of `s` between separators `sep`, in order, empty pieces
/// included: one more piece than there are separators.
pub open spec fn split_on(s: Seq<u8>, sep: u8) -> Seq<Seq<u8>>
    decreases s.len(),
{
    if s.len() == 0 {
        seq![seq![]]
    } else {
        let pieces = split_on(s.drop_last(), sep);
        if s.last() == sep {
            pieces.push(seq![])
        } else {
            pieces.update(pieces.len() - 1, pieces.last().push(s.last()))
        }
    }
}

/// `k` is where the name of a pair ends: at its first `=`, or at its end
/// where it has none.
pub open spec fn is_name_end(seg: Seq<u8>, k: int) -> bool {
    &&& 0 <= k <= seg.len()
    &&& k < seg.len() ==> seg[k] == EQUALS
    &&& forall|j: int| 0 <= j < k ==> seg[j] != EQUALS
}

/// The decoded name and value of one non-empty piece of a body: the name is
/// what stands before the first `=`, the value what follows it (empty where
/// the piece has no `=`).
pub open spec fn pair_of(seg: Seq<u8>) -> (Seq<u8>, Seq<u8>) {
    let k = choose|k: int| is_name_end(seg, k);
    let value = if k < seg.len() {
        seg.skip(k + 1)
    } else {
        seq![]
    };
    (decode_component(seg.take(k)), decode_component(value))
}

/// The pairs that the pieces stand for, empty pieces skipped.
pub open spec fn pairs_of(pieces: Seq<Seq<u8>>) -> Seq<(Seq<u8>, Seq<u8>)>
    decreases pieces.len(),
{
    if pieces.len() == 0 {
        seq![]
    } else {
        let rest = pairs_of(pieces.drop_last());
        if pieces.last().len() == 0 {
            rest
        } else {
            rest.push(pair_of(pieces.last()))
        }
    }
}

/// The decoded pairs of a form body, in the order in which they stand.
pub open spec fn form_pairs(body: Seq<u8>) -> Seq<(Seq<u8>, Seq<u8>)> {
    pairs_of(split_on(body, AMPERSAND))
}

/// One decoded pair of a form body.
pub struct FormField {
    pub name: Vec<u8>,
    pub value: Vec<u8>,
}

impl FormField {
    pub open spec fn view(&self) -> (Seq<u8>, Seq<u8>) {
        (self.name@, self.value@)
    }
}

/// The views of a list of pairs.
pub open spec fn fields_view(fields: Seq<FormField>) -> Seq<(Seq<u8>, Seq<u8>)> {
    fields.map_values(|f: FormField| f.view())
}

fn hex_digit_value(b: u8) -> (r: Option<u8>)
    ensures
        r.is_some() == is_hex_digit(b),
        r.is_some() ==> r.unwrap() as int == hex_value(b) && r.unwrap() < 16,
{
    if 0x30 <= b && b <= 0x39 {
        Some(b - 0x30)
    } else if 0x41 <= b && b <= 0x46 {
        Some(b - 0x41 + 10)
    } else if 0x61 <= b && b <= 0x66 {
        Some(b - 0x61 + 10)
    } else {
        None
    }
}

/// Decodes `s[start..end]` as one name or value.
pub fn decode_range(s: &[u8], start: usize, end: usize) -> (r: Vec<u8>)
    requires
        start <= end <= s@.len(),
    ensures
        r@ == decode_component(s@.subrange(start as int, end as int)),
{
    let mut out: Vec<u8> = Vec::new();
    let mut i: usize = start;
    while i < end
        invariant
            start <= i <= end <= s@.len(),
            out@ + decode_component(s@.subrange(i as int, end as int)) == decode_component(
                s@.subrange(start as int, end as int),
            ),
        decreases end - i,
    {
        let ghost rest = s@.subrange(i as int, end as int);
        let b = s[i];
        if b == PLUS {
            assert(rest.skip(1) =~= s@.subrange(i + 1, end as int));
            out.push(SPACE);
            i = i + 1;
        } else if b == PERCENT && end - i >= 3 {
            let hi = hex_digit_value(s[i + 1]);
            let lo = hex_digit_value(s[i + 2]);
            match (hi, lo) {
                (Some(h), Some(l)) => {
                    assert(rest.skip(3) =~= s@.subrange(i + 3, end as int));
                    out.push(h * 16 + l);
                    i = i + 3;
                },
                _ => {
                    assert(rest.skip(1) =~= s@.subrange(i + 1, end as int));
                    out.push(b);
                    i = i + 1;
                },
            }
        } else {
            assert(rest.skip(1) =~= s@.subrange(i + 1, end as int));
            out.push(b);
            i = i + 1;
        }
        assert(out@ + decode_component(s@.subrange(i as int, end as int)) =~= decode_component(
            s@.subrange(start as int, end as int),
        ));
    }
    assert(s@.subrange(i as int, end as int) =~= seq![]);
    assert(out@ =~= out@ + decode_component(s@.subrange(i as int, end as int)));
    out
}

/// The decoded pair of the non-empty piece `s[start..end]`.
fn split_pair(s: &[u8], start: usize, end: usize) -> (f: FormField)
    requires
        start < end <= s@.len(),
    ensures
        f.view() == pair_of(s@.subrange(start as int, end as int)),
{
    let ghost seg = s@.subrange(start as int, end as int);
    let mut k: usize = start;
    while k < end && s[k] != EQUALS
        invariant
            start <= k <= end <= s@.len(),
            forall|j: int| start <= j < k ==> s@[j] != EQUALS,
        decreases end - k,
    {
        k = k + 1;
    }
    let ghost n = k - start;
    proof {
        assert(is_name_end(seg, n));
        assert forall|m: int| is_name_end(seg, m) implies m == n by {
            if m < n {
                assert(seg[m] == EQUALS);
            } else if n < m {
                assert(seg[n] != EQUALS);
            }
        }
        assert(seg.take(n) =~= s@.subrange(start as int, k as int));
    }
    let name = decode_range(s, start, k);
    let value = if k < end {
        assert(seg.skip(n + 1) =~= s@.subrange(k + 1, end as int));
        decode_range(s, k + 1, end)
    } else {
        assert(decode_component(seq![]) =~= seq![]);
        Vec::new()
    };
    FormField { name, value }
}

/// Splits a form body into its decoded pairs, in order; pieces between two
/// `&` that are empty are skipped.
pub fn parse_form(body: &[u8]) -> (fields: Vec<FormField>)
    ensures
        fields_view(fields@) == form_pairs(body@),
{
    let mut fields: Vec<FormField> = Vec::new();
    let mut start: usize = 0;
    let mut i: usize = 0;
    let ghost mut done: Seq<Seq<u8>> = seq![];
    assert(split_on(body@.take(0), AMPERSAND) =~~= done.push(body@.subrange(0, 0)));
    assert(fields_view(fields@) =~= pairs_of(done));
    while i < body.len()
        invariant
            start <= i <= body@.len(),
            split_on(body@.take(i as int), AMPERSAND) == done.push(
                body@.subrange(start as int, i as int),
            ),
            fields_view(fields@) == pairs_of(done),
        decreases body@.len() - i,
    {
        let ghost prev = split_on(body@.take(i as int), AMPERSAND);
        assert(body@.take(i + 1).drop_last() =~= body@.take(i as int));
        if body[i] == AMPERSAND {
            let ghost piece = body@.subrange(start as int, i as int);
            if start < i {
                let f = split_pair(body, start, i);
                fields.push(f);
            }
            proof {
                assert(done.push(piece).drop_last() =~= done);
                assert(fields_view(fields@) =~= pairs_of(done.push(piece)));
                done = done.push(piece);
            }
            start = i + 1;
            assert(split_on(body@.take(i + 1), AMPERSAND) =~~= done.push(
                body@.subrange(start as int, i + 1),
            ));
        } else {
            assert(split_on(body@.take(i + 1), AMPERSAND) =~~= done.push(
                body@.subrange(start as int, i + 1),
            ));
        }
        i = i + 1;
    }
    let ghost piece = body@.subrange(start as int, i as int);
    assert(body@.take(i as int) =~= body@);
    if start < i {
        let f = split_pair(body, start, i);
        fields.push(f);
    }
    assert(done.push(piece).drop_last() =~= done);
    assert(fields_view(fields@) =~= pairs_of(done.push(piece)));
    fields
}

} // verus!
