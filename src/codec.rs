//! Depth-bounded conversion between host values and engine values.
use vstd::prelude::*;

use crate::error::{BindingError, Category, InputError};
use crate::value::{host_model, HostModel, HostValue, Value, ValueModel, VersionedValue};

verus! {

/// The deepest nesting level at which the encoder still accepts a value.
pub const MAX_DEPTH: usize = 64;

/// Whether a binary64 bit pattern denotes a finite number (not NaN, not infinite).
pub open spec fn is_finite_bits(b: u64) -> bool {
    (b / 0x10_0000_0000_0000) % 2048 != 2047
}

/// The binary64 bit pattern of the number nearest to `u` (ties to even),
/// for `u` of at least 2^63, where 11 low bits fall outside the significand.
pub open spec fn wide_u64_bits(u: u64) -> u64 {
    let q: int = u as int / 2048;
    let rem: int = u as int % 2048;
    let m: int = if rem > 1024 || (rem == 1024 && q % 2 == 1) {
        q + 1
    } else {
        q
    };
    if m == 0x20_0000_0000_0000 {
        0x43F0_0000_0000_0000
    } else {
        (0x43E0_0000_0000_0000 + (m - 0x10_0000_0000_0000)) as u64
    }
}

/// Whether `h`, found at nesting level `depth`, lies with all it holds
/// within the deepest level the encoder accepts.
pub open spec fn depth_ok(h: HostModel, depth: int) -> bool
    decreases h, 0int,
{
    &&& depth <= MAX_DEPTH
    &&& match h {
        HostModel::Array(s) => items_depth_ok(s, depth + 1, s.len() as int),
        HostModel::Object(s) => fields_depth_ok(s, depth + 1, s.len() as int),
        _ => true,
    }
}

/// Whether the first `n` items of `s` lie within the accepted depth.
pub open spec fn items_depth_ok(s: Seq<HostModel>, depth: int, n: int) -> bool
    decreases s, n,
{
    if n <= 0 || n > s.len() {
        true
    } else {
        depth_ok(s[n - 1], depth) && items_depth_ok(s, depth, n - 1)
    }
}

/// Whether the values of the first `n` fields of `s` lie within the accepted depth.
pub open spec fn fields_depth_ok(s: Seq<(Seq<char>, HostModel)>, depth: int, n: int) -> bool
    decreases s, n,
{
    if n <= 0 || n > s.len() {
        true
    } else {
        depth_ok(s[n - 1].1, depth) && fields_depth_ok(s, depth, n - 1)
    }
}

pub proof fn lemma_items_depth_ok(s: Seq<HostModel>, depth: int, n: int)
    requires
        0 <= n <= s.len(),
    ensures
        items_depth_ok(s, depth, n) <==> forall|i: int|
            0 <= i < n ==> depth_ok(#[trigger] s[i], depth),
    decreases n,
{
    if n > 0 {
        lemma_items_depth_ok(s, depth, n - 1);
    }
}

pub proof fn lemma_fields_depth_ok(s: Seq<(Seq<char>, HostModel)>, depth: int, n: int)
    requires
        0 <= n <= s.len(),
    ensures
        fields_depth_ok(s, depth, n) <==> forall|i: int|
            0 <= i < n ==> depth_ok(#[trigger] s[i].1, depth),
    decreases n,
{
    if n > 0 {
        lemma_fields_depth_ok(s, depth, n - 1);
    }
}

/// The standard base64 alphabet.
pub open spec fn b64_alphabet() -> Seq<char> {
    "ABCDEFGHIJKLMNOPQRSTUVWXYZabcdefghijklmnopqrstuvwxyz0123456789+/"@
}

/// The character at position `j` of the padded standard base64 encoding of
/// `b`: each group of three bytes gives four characters of six bits each,
/// and a last group of one or two bytes is completed with `=`.
pub open spec fn base64_char(b: Seq<u8>, j: int) -> char {
    let k = j / 4;
    let p = j % 4;
    let n = b.len() as int;
    let b0 = b[3 * k] as int;
    let b1 = if 3 * k + 1 < n {
        b[3 * k + 1] as int
    } else {
        0
    };
    let b2 = if 3 * k + 2 < n {
        b[3 * k + 2] as int
    } else {
        0
    };
    if p == 0 {
        b64_alphabet()[b0 / 4]
    } else if p == 1 {
        b64_alphabet()[(b0 % 4) * 16 + b1 / 16]
    } else if p == 2 {
        if 3 * k + 1 < n {
            b64_alphabet()[(b1 % 16) * 4 + b2 / 64]
        } else {
            '='
        }
    } else {
        if 3 * k + 2 < n {
            b64_alphabet()[b2 % 64]
        } else {
            '='
        }
    }
}

/// The padded standard base64 encoding of `b`.
pub open spec fn base64(b: Seq<u8>) -> Seq<char> {
    Seq::new((4 * ((b.len() + 2) / 3)) as nat, |j: int| base64_char(b, j))
}

fn push_sextet(out: &mut String, alphabet: &str, x: usize)
    requires
        alphabet@ == b64_alphabet(),
        alphabet.is_ascii(),
        x < 64,
    ensures
        final(out)@ == old(out)@.push(b64_alphabet()[x as int]),
{
    proof {
        reveal_strlit("ABCDEFGHIJKLMNOPQRSTUVWXYZabcdefghijklmnopqrstuvwxyz0123456789+/");
    }
    let piece = alphabet.substring_ascii(x, x + 1);
    assert(piece@ =~= seq![b64_alphabet()[x as int]]);
    out.append(piece);
}

fn push_pad(out: &mut String)
    ensures
        final(out)@ == old(out)@.push('='),
{
    let pad = "=";
    proof {
        reveal_strlit("=");
    }
    assert(pad@ =~= seq!['=']);
    out.append(pad);
}

/// Encodes bytes as padded standard base64 text.
pub fn base64_encode(data: &[u8]) -> (r: String)
    ensures
        r@ == base64(data@),
{
    let alphabet = "ABCDEFGHIJKLMNOPQRSTUVWXYZabcdefghijklmnopqrstuvwxyz0123456789+/";
    proof {
        reveal_strlit("ABCDEFGHIJKLMNOPQRSTUVWXYZabcdefghijklmnopqrstuvwxyz0123456789+/");
    }
    let n = data.len();
    let mut out = String::new();
    let mut i: usize = 0;
    let ghost mut k: int = 0;
    while i < n
        invariant
            n == data@.len(),
            alphabet@ == b64_alphabet(),
            alphabet.is_ascii(),
            0 <= k,
            i == 3 * k || (i == n && 3 * k - 3 < n < 3 * k),
            i <= n,
            out@.len() == 4 * k,
            forall|j: int| 0 <= j < 4 * k ==> #[trigger] out@[j] == base64_char(data@, j),
        decreases n - i,
    {
        let b0 = data[i] as usize;
        let b1: usize = if i + 1 < n {
            data[i + 1] as usize
        } else {
            0
        };
        let b2: usize = if i + 2 < n {
            data[i + 2] as usize
        } else {
            0
        };
        let ghost before = out@;
        push_sextet(&mut out, alphabet, b0 / 4);
        push_sextet(&mut out, alphabet, (b0 % 4) * 16 + b1 / 16);
        if i + 1 < n {
            push_sextet(&mut out, alphabet, (b1 % 16) * 4 + b2 / 64);
        } else {
            push_pad(&mut out);
        }
        if i + 2 < n {
            push_sextet(&mut out, alphabet, b2 % 64);
        } else {
            push_pad(&mut out);
        }
        assert forall|j: int| 0 <= j < 4 * k + 4 implies #[trigger] out@[j] == base64_char(
            data@,
            j,
        ) by {
            if j >= 4 * k {
                assert(j / 4 == k);
                assert(j % 4 == j - 4 * k);
            } else {
                assert(out@[j] == before[j]);
            }
        }
        if n - i > 3 {
            i = i + 3;
        } else {
            i = n;
        }
        proof {
            k = k + 1;
        }
    }
    assert(k == (n + 2) / 3);
    assert(out@ =~= base64(data@));
    out
}

/// The engine value a host value encodes to.
pub open spec fn encode_model(h: HostModel) -> ValueModel
    decreases h,
{
    match h {
        HostModel::Null => ValueModel::Null,
        HostModel::Bool(b) => ValueModel::Bool(b),
        HostModel::Int(i) => ValueModel::Int(i),
        HostModel::UInt(u) => if u <= i64::MAX {
            ValueModel::Int(u as i64)
        } else {
            ValueModel::Float(wide_u64_bits(u))
        },
        HostModel::Float(f) => if is_finite_bits(f) {
            ValueModel::Float(f)
        } else {
            ValueModel::Null
        },
        HostModel::Str(s) => ValueModel::Str(s),
        HostModel::Array(s) => ValueModel::Array(
            Seq::new(
                s.len(),
                |i: int|
                    if 0 <= i < s.len() {
                        encode_model(s[i])
                    } else {
                        ValueModel::Null
                    },
            ),
        ),
        HostModel::Object(s) => ValueModel::Object(
            Seq::new(
                s.len(),
                |i: int|
                    if 0 <= i < s.len() {
                        (s[i].0, encode_model(s[i].1))
                    } else {
                        (Seq::empty(), ValueModel::Null)
                    },
            ),
        ),
    }
}

/// Whether a bit pattern denotes a finite binary64 number.
pub fn is_finite(b: u64) -> (r: bool)
    ensures
        r == is_finite_bits(b),
{
    (b / 0x10_0000_0000_0000) % 2048 != 2047
}

fn wide_u64_to_bits(u: u64) -> (r: u64)
    requires
        u > i64::MAX,
    ensures
        r == wide_u64_bits(u),
{
    let q: u64 = u / 2048;
    let rem: u64 = u % 2048;
    let m: u64 = if rem > 1024 || (rem == 1024 && q % 2 == 1) {
        q + 1
    } else {
        q
    };
    if m == 0x20_0000_0000_0000 {
        0x43F0_0000_0000_0000
    } else {
        0x43E0_0000_0000_0000 + (m - 0x10_0000_0000_0000)
    }
}

/// Converts a host value found at nesting level `depth` to an engine value.
///
/// Fails with a validation error as soon as a level deeper than
/// [`MAX_DEPTH`] is reached, without descending further.
pub fn encode(h: &HostValue, depth: usize) -> (r: Result<Value, BindingError>)
    ensures
        r is Ok <==> depth_ok(h@, depth as int),
        r matches Ok(v) ==> v@ == encode_model(h@),
        r matches Err(e) ==> e == BindingError::Invalid(InputError::DepthExceeded),
    decreases h,
{
    if depth > MAX_DEPTH {
        return Err(BindingError::Invalid(InputError::DepthExceeded));
    }
    match h {
        HostValue::Null => Ok(Value::Null),
        HostValue::Bool(b) => Ok(Value::Bool(*b)),
        HostValue::Int(i) => Ok(Value::Int(*i)),
        HostValue::UInt(u) => {
            if *u <= i64::MAX as u64 {
                Ok(Value::Int(*u as i64))
            } else {
                Ok(Value::Float(wide_u64_to_bits(*u)))
            }
        },
        HostValue::Float(f) => {
            if is_finite(*f) {
                Ok(Value::Float(*f))
            } else {
                Ok(Value::Null)
            }
        },
        HostValue::Str(s) => Ok(Value::Str(s.clone())),
        HostValue::Array(a) => {
            let ghost hs = match h@ {
                HostModel::Array(s) => s,
                _ => Seq::empty(),
            };
            assert(h@ == HostModel::Array(hs));
            let mut out: Vec<Value> = Vec::new();
            let mut i: usize = 0;
            while i < a.len()
                invariant
                    i <= a@.len(),
                    depth <= MAX_DEPTH,
                    *h == HostValue::Array(*a),
                    h@ == HostModel::Array(hs),
                    out@.len() == i,
                    hs.len() == a@.len(),
                    forall|j: int| 0 <= j < a@.len() ==> #[trigger] hs[j] == a@[j]@,
                    forall|j: int| 0 <= j < i ==> depth_ok(#[trigger] hs[j], depth + 1),
                    forall|j: int| 0 <= j < i ==> (#[trigger] out@[j])@ == encode_model(hs[j]),
                decreases a@.len() - i,
            {
                proof {
                    assert(decreases_to!(*h => (*h)->Array_0));
                    vstd::std_specs::vec::axiom_vec_index_decreases(*a, i as int);
                    assert(decreases_to!(*a => a@[i as int]));
                }
                match encode(&a[i], depth + 1) {
                    Ok(v) => {
                        out.push(v);
                    },
                    Err(e) => {
                        assert(!depth_ok(hs[i as int], depth + 1));
                        proof {
                            lemma_items_depth_ok(hs, depth + 1, hs.len() as int);
                        }
                        return Err(e);
                    },
                }
                i = i + 1;
            }
            proof {
                lemma_items_depth_ok(hs, depth + 1, hs.len() as int);
            }
            let r = Value::Array(out);
            assert(r@ == encode_model(h@)) by {
                let rs = match r@ {
                    ValueModel::Array(s) => s,
                    _ => Seq::empty(),
                };
                let es = match encode_model(h@) {
                    ValueModel::Array(s) => s,
                    _ => Seq::empty(),
                };
                assert(rs =~= es);
            }
            Ok(r)
        },
        HostValue::Object(o) => {
            let ghost hs = match h@ {
                HostModel::Object(s) => s,
                _ => Seq::empty(),
            };
            assert(h@ == HostModel::Object(hs));
            let mut out: Vec<(String, Value)> = Vec::new();
            let mut i: usize = 0;
            while i < o.len()
                invariant
                    i <= o@.len(),
                    depth <= MAX_DEPTH,
                    *h == HostValue::Object(*o),
                    h@ == HostModel::Object(hs),
                    out@.len() == i,
                    hs.len() == o@.len(),
                    forall|j: int|
                        0 <= j < o@.len() ==> #[trigger] hs[j] == (o@[j].0@, o@[j].1@),
                    forall|j: int| 0 <= j < i ==> depth_ok(#[trigger] hs[j].1, depth + 1),
                    forall|j: int|
                        0 <= j < i ==> (#[trigger] out@[j]).0@ == hs[j].0 && out@[j].1@
                            == encode_model(hs[j].1),
                decreases o@.len() - i,
            {
                let (k, x) = &o[i];
                proof {
                    assert(decreases_to!(*h => (*h)->Object_0));
                    vstd::std_specs::vec::axiom_vec_index_decreases(*o, i as int);
                    assert(decreases_to!(*o => o@[i as int]));
                    assert(decreases_to!(o@[i as int] => o@[i as int].1));
                    assert(hs[i as int] == (k@, x@));
                }
                match encode(x, depth + 1) {
                    Ok(v) => {
                        out.push((k.clone(), v));
                    },
                    Err(e) => {
                        assert(!depth_ok(hs[i as int].1, depth + 1));
                        proof {
                            lemma_fields_depth_ok(hs, depth + 1, hs.len() as int);
                        }
                        return Err(e);
                    },
                }
                i = i + 1;
            }
            proof {
                lemma_fields_depth_ok(hs, depth + 1, hs.len() as int);
            }
            let r = Value::Object(out);
            assert(r@ == encode_model(h@)) by {
                let rs = match r@ {
                    ValueModel::Object(s) => s,
                    _ => Seq::empty(),
                };
                let es = match encode_model(h@) {
                    ValueModel::Object(s) => s,
                    _ => Seq::empty(),
                };
                assert(rs =~= es);
            }
            Ok(r)
        },
    }
}

/// The host value an engine value decodes to. Decoding never fails: a
/// float that is not finite becomes null, and bytes become base64 text.
pub open spec fn decode_model(v: ValueModel) -> HostModel
    decreases v,
{
    match v {
        ValueModel::Null => HostModel::Null,
        ValueModel::Bool(b) => HostModel::Bool(b),
        ValueModel::Int(i) => HostModel::Int(i),
        ValueModel::Float(f) => if is_finite_bits(f) {
            HostModel::Float(f)
        } else {
            HostModel::Null
        },
        ValueModel::Str(s) => HostModel::Str(s),
        ValueModel::Bytes(b) => HostModel::Str(base64(b)),
        ValueModel::Array(s) => HostModel::Array(
            Seq::new(
                s.len(),
                |i: int|
                    if 0 <= i < s.len() {
                        decode_model(s[i])
                    } else {
                        HostModel::Null
                    },
            ),
        ),
        ValueModel::Object(s) => HostModel::Object(
            Seq::new(
                s.len(),
                |i: int|
                    if 0 <= i < s.len() {
                        (s[i].0, decode_model(s[i].1))
                    } else {
                        (Seq::empty(), HostModel::Null)
                    },
            ),
        ),
    }
}

/// Converts an engine value to a host value.
pub fn decode(v: &Value) -> (r: HostValue)
    ensures
        r@ == decode_model(v@),
    decreases v,
{
    match v {
        Value::Null => HostValue::Null,
        Value::Bool(b) => HostValue::Bool(*b),
        Value::Int(i) => HostValue::Int(*i),
        Value::Float(f) => {
            if is_finite(*f) {
                HostValue::Float(*f)
            } else {
                HostValue::Null
            }
        },
        Value::Str(s) => HostValue::Str(s.clone()),
        Value::Bytes(b) => HostValue::Str(base64_encode(b.as_slice())),
        Value::Array(a) => {
            let ghost vs = match v@ {
                ValueModel::Array(s) => s,
                _ => Seq::empty(),
            };
            assert(v@ == ValueModel::Array(vs));
            let mut out: Vec<HostValue> = Vec::new();
            let mut i: usize = 0;
            while i < a.len()
                invariant
                    i <= a@.len(),
                    *v == Value::Array(*a),
                    v@ == ValueModel::Array(vs),
                    out@.len() == i,
                    vs.len() == a@.len(),
                    forall|j: int| 0 <= j < a@.len() ==> #[trigger] vs[j] == a@[j]@,
                    forall|j: int| 0 <= j < i ==> (#[trigger] out@[j])@ == decode_model(vs[j]),
                decreases a@.len() - i,
            {
                proof {
                    assert(decreases_to!(*v => (*v)->Array_0));
                    vstd::std_specs::vec::axiom_vec_index_decreases(*a, i as int);
                    assert(decreases_to!(*a => a@[i as int]));
                }
                let x = decode(&a[i]);
                out.push(x);
                i = i + 1;
            }
            let r = HostValue::Array(out);
            assert(r@ == decode_model(v@)) by {
                let rs = match r@ {
                    HostModel::Array(s) => s,
                    _ => Seq::empty(),
                };
                let ds = match decode_model(v@) {
                    HostModel::Array(s) => s,
                    _ => Seq::empty(),
                };
                assert(rs =~= ds);
            }
            r
        },
        Value::Object(o) => {
            let ghost vs = match v@ {
                ValueModel::Object(s) => s,
                _ => Seq::empty(),
            };
            assert(v@ == ValueModel::Object(vs));
            let mut out: Vec<(String, HostValue)> = Vec::new();
            let mut i: usize = 0;
            while i < o.len()
                invariant
                    i <= o@.len(),
                    *v == Value::Object(*o),
                    v@ == ValueModel::Object(vs),
                    out@.len() == i,
                    vs.len() == o@.len(),
                    forall|j: int|
                        0 <= j < o@.len() ==> #[trigger] vs[j] == (o@[j].0@, o@[j].1@),
                    forall|j: int|
                        0 <= j < i ==> (#[trigger] out@[j]).0@ == vs[j].0 && out@[j].1@
                            == decode_model(vs[j].1),
                decreases o@.len() - i,
            {
                let (k, x) = &o[i];
                proof {
                    assert(decreases_to!(*v => (*v)->Object_0));
                    vstd::std_specs::vec::axiom_vec_index_decreases(*o, i as int);
                    assert(decreases_to!(*o => o@[i as int]));
                    assert(decreases_to!(o@[i as int] => o@[i as int].1));
                    assert(vs[i as int] == (k@, x@));
                }
                let d = decode(x);
                out.push((k.clone(), d));
                i = i + 1;
            }
            let r = HostValue::Object(out);
            assert(r@ == decode_model(v@)) by {
                let rs = match r@ {
                    HostModel::Object(s) => s,
                    _ => Seq::empty(),
                };
                let ds = match decode_model(v@) {
                    HostModel::Object(s) => s,
                    _ => Seq::empty(),
                };
                assert(rs =~= ds);
            }
            r
        },
    }
}

/// The host object that shows a versioned value: its decoded value, its
/// version and its timestamp.
pub open spec fn versioned_model(v: ValueModel, version: u64, timestamp: u64) -> HostModel {
    HostModel::Object(
        seq![
            ("value"@, decode_model(v)),
            ("version"@, HostModel::UInt(version)),
            ("timestamp"@, HostModel::UInt(timestamp)),
        ],
    )
}

/// Shows a versioned value to the host.
pub fn versioned_to_host(vv: &VersionedValue) -> (r: HostValue)
    ensures
        r@ == versioned_model(vv.value@, vv.version, vv.timestamp),
{
    let d = decode(&vv.value);
    let mut fields: Vec<(String, HostValue)> = Vec::new();
    fields.push((String::from_str("value"), d));
    fields.push((String::from_str("version"), HostValue::UInt(vv.version)));
    fields.push((String::from_str("timestamp"), HostValue::UInt(vv.timestamp)));
    let r = HostValue::Object(fields);
    assert(r@ == versioned_model(vv.value@, vv.version, vv.timestamp)) by {
        let rs = match r@ {
            HostModel::Object(s) => s,
            _ => Seq::empty(),
        };
        let ms = match versioned_model(vv.value@, vv.version, vv.timestamp) {
            HostModel::Object(s) => s,
            _ => Seq::empty(),
        };
        assert(host_model(HostValue::UInt(vv.version)) == HostModel::UInt(vv.version));
        assert(host_model(HostValue::UInt(vv.timestamp)) == HostModel::UInt(vv.timestamp));
        assert(rs.len() == 3);
        assert(rs[0] == ms[0]);
        assert(rs[1] == ms[1]);
        assert(rs[2] == ms[2]);
        assert(rs =~= ms);
    }
    r
}

/// Checks that every element of a vector of binary64 bit patterns is finite.
///
/// The first element that is NaN or infinite is named in the error.
pub fn validate_vector(v: &[u64]) -> (r: Result<(), BindingError>)
    ensures
        r is Ok <==> forall|i: int| 0 <= i < v@.len() ==> is_finite_bits(#[trigger] v@[i]),
        r matches Err(e) ==> e matches BindingError::Invalid(InputError::NonFiniteElement(i)) && i
            < v@.len() && !is_finite_bits(v@[i as int]) && forall|j: int|
            0 <= j < i ==> is_finite_bits(#[trigger] v@[j]),
{
    let mut i: usize = 0;
    while i < v.len()
        invariant
            i <= v@.len(),
            forall|j: int| 0 <= j < i ==> is_finite_bits(#[trigger] v@[j]),
        decreases v@.len() - i,
    {
        if !is_finite(v[i]) {
            return Err(BindingError::Invalid(InputError::NonFiniteElement(i)));
        }
        i = i + 1;
    }
    Ok(())
}

/// Whether a host value is one the host itself produces: every float
/// finite, every integer signed.
pub open spec fn host_valid(h: HostModel) -> bool
    decreases h, 0int,
{
    match h {
        HostModel::UInt(_) => false,
        HostModel::Float(f) => is_finite_bits(f),
        HostModel::Array(s) => items_valid(s, s.len() as int),
        HostModel::Object(s) => fields_valid(s, s.len() as int),
        _ => true,
    }
}

pub open spec fn items_valid(s: Seq<HostModel>, n: int) -> bool
    decreases s, n,
{
    if n <= 0 || n > s.len() {
        true
    } else {
        host_valid(s[n - 1]) && items_valid(s, n - 1)
    }
}

pub open spec fn fields_valid(s: Seq<(Seq<char>, HostModel)>, n: int) -> bool
    decreases s, n,
{
    if n <= 0 || n > s.len() {
        true
    } else {
        host_valid(s[n - 1].1) && fields_valid(s, n - 1)
    }
}

/// Decoding what was encoded gives back the host value, for every value
/// the host produces within the nesting limit.
pub proof fn lemma_round_trip(h: HostModel)
    requires
        depth_ok(h, 0),
        host_valid(h),
    ensures
        decode_model(encode_model(h)) == h,
{
    lemma_round_trip_valid(h);
}

proof fn lemma_round_trip_valid(h: HostModel)
    requires
        host_valid(h),
    ensures
        decode_model(encode_model(h)) == h,
    decreases h, 0int,
{
    match h {
        HostModel::Array(s) => {
            lemma_items_round_trip(s, s.len() as int);
            let ds = match decode_model(encode_model(h)) {
                HostModel::Array(t) => t,
                _ => Seq::empty(),
            };
            assert(ds =~= s);
        },
        HostModel::Object(s) => {
            lemma_fields_round_trip(s, s.len() as int);
            let ds = match decode_model(encode_model(h)) {
                HostModel::Object(t) => t,
                _ => Seq::empty(),
            };
            assert(ds =~= s);
        },
        _ => {},
    }
}

proof fn lemma_items_round_trip(s: Seq<HostModel>, n: int)
    requires
        0 <= n <= s.len(),
        items_valid(s, n),
    ensures
        forall|i: int| 0 <= i < n ==> decode_model(encode_model(#[trigger] s[i])) == s[i],
    decreases s, n,
{
    if n > 0 {
        lemma_round_trip_valid(s[n - 1]);
        lemma_items_round_trip(s, n - 1);
    }
}

proof fn lemma_fields_round_trip(s: Seq<(Seq<char>, HostModel)>, n: int)
    requires
        0 <= n <= s.len(),
        fields_valid(s, n),
    ensures
        forall|i: int| 0 <= i < n ==> decode_model(encode_model(#[trigger] s[i].1)) == s[i].1,
    decreases s, n,
{
    if n > 0 {
        lemma_round_trip_valid(s[n - 1].1);
        lemma_fields_round_trip(s, n - 1);
    }
}

/// Bytes, which no host value encodes to, decode to their base64 text, and
/// decoding that text gives the bytes back.
pub proof fn lemma_bytes_decode_to_base64(b: Seq<u8>)
    ensures
        decode_model(ValueModel::Bytes(b)) == HostModel::Str(base64(b)),
        base64_decode(base64(b)) == b,
{
    lemma_base64_round_trip(b);
}

/// `n` arrays, each holding the next, around a null.
pub open spec fn nested(n: nat) -> HostModel
    decreases n,
{
    if n == 0 {
        HostModel::Null
    } else {
        HostModel::Array(seq![nested((n - 1) as nat)])
    }
}

proof fn lemma_nested_depth(n: nat, d: int)
    requires
        0 <= d,
    ensures
        depth_ok(nested(n), d) <==> d + n <= MAX_DEPTH,
    decreases n,
{
    if n > 0 {
        lemma_nested_depth((n - 1) as nat, d + 1);
        let s = seq![nested((n - 1) as nat)];
        assert(nested(n) == HostModel::Array(s));
        assert(items_depth_ok(s, d + 1, 1) == (depth_ok(s[0], d + 1) && items_depth_ok(
            s,
            d + 1,
            0,
        )));
    }
}

/// Values nested 64 levels deep are accepted; one more level is rejected,
/// and the rejection is a validation failure.
pub proof fn lemma_nesting_limit(n: nat)
    ensures
        depth_ok(nested(n), 0) <==> n <= 64,
        BindingError::Invalid(InputError::DepthExceeded).spec_category() == Some(
            Category::Validation,
        ),
{
    lemma_nested_depth(n, 0);
}

/// The six-bit value of a base64 character.
pub open spec fn sextet_of(c: char) -> int {
    let u = c as u32 as int;
    if 65 <= u <= 90 {
        u - 65
    } else if 97 <= u <= 122 {
        u - 71
    } else if 48 <= u <= 57 {
        u + 4
    } else if c == '+' {
        62
    } else {
        63
    }
}

/// How many `=` close a base64 text.
pub open spec fn base64_padding(t: Seq<char>) -> int {
    if t.len() >= 2 && t[t.len() - 2] == '=' {
        2
    } else if t.len() >= 1 && t[t.len() - 1] == '=' {
        1
    } else {
        0
    }
}

/// Byte `i` of the data a padded base64 text encodes.
pub open spec fn base64_byte(t: Seq<char>, i: int) -> u8 {
    let k = i / 3;
    let p = i % 3;
    let s0 = sextet_of(t[4 * k]);
    let s1 = sextet_of(t[4 * k + 1]);
    let s2 = sextet_of(t[4 * k + 2]);
    let s3 = sextet_of(t[4 * k + 3]);
    (if p == 0 {
        s0 * 4 + s1 / 16
    } else if p == 1 {
        (s1 % 16) * 16 + s2 / 4
    } else {
        (s2 % 4) * 64 + s3
    }) as u8
}

/// The data a padded standard base64 text encodes.
pub open spec fn base64_decode(t: Seq<char>) -> Seq<u8> {
    Seq::new((3 * (t.len() / 4) - base64_padding(t)) as nat, |i: int| base64_byte(t, i))
}

proof fn lemma_alphabet_sextets()
    ensures
        forall|x: int| 0 <= x < 64 ==> sextet_of(#[trigger] b64_alphabet()[x]) == x
            && b64_alphabet()[x] != '=',
{
    reveal_strlit("ABCDEFGHIJKLMNOPQRSTUVWXYZabcdefghijklmnopqrstuvwxyz0123456789+/");
    let a = b64_alphabet();
    assert(a.len() == 64);
    assert(sextet_of(a[0]) == 0 && a[0] != '=');
    assert(sextet_of(a[1]) == 1 && a[1] != '=');
    assert(sextet_of(a[2]) == 2 && a[2] != '=');
    assert(sextet_of(a[3]) == 3 && a[3] != '=');
    assert(sextet_of(a[4]) == 4 && a[4] != '=');
    assert(sextet_of(a[5]) == 5 && a[5] != '=');
    assert(sextet_of(a[6]) == 6 && a[6] != '=');
    assert(sextet_of(a[7]) == 7 && a[7] != '=');
    assert(sextet_of(a[8]) == 8 && a[8] != '=');
    assert(sextet_of(a[9]) == 9 && a[9] != '=');
    assert(sextet_of(a[10]) == 10 && a[10] != '=');
    assert(sextet_of(a[11]) == 11 && a[11] != '=');
    assert(sextet_of(a[12]) == 12 && a[12] != '=');
    assert(sextet_of(a[13]) == 13 && a[13] != '=');
    assert(sextet_of(a[14]) == 14 && a[14] != '=');
    assert(sextet_of(a[15]) == 15 && a[15] != '=');
    assert(sextet_of(a[16]) == 16 && a[16] != '=');
    assert(sextet_of(a[17]) == 17 && a[17] != '=');
    assert(sextet_of(a[18]) == 18 && a[18] != '=');
    assert(sextet_of(a[19]) == 19 && a[19] != '=');
    assert(sextet_of(a[20]) == 20 && a[20] != '=');
    assert(sextet_of(a[21]) == 21 && a[21] != '=');
    assert(sextet_of(a[22]) == 22 && a[22] != '=');
    assert(sextet_of(a[23]) == 23 && a[23] != '=');
    assert(sextet_of(a[24]) == 24 && a[24] != '=');
    assert(sextet_of(a[25]) == 25 && a[25] != '=');
    assert(sextet_of(a[26]) == 26 && a[26] != '=');
    assert(sextet_of(a[27]) == 27 && a[27] != '=');
    assert(sextet_of(a[28]) == 28 && a[28] != '=');
    assert(sextet_of(a[29]) == 29 && a[29] != '=');
    assert(sextet_of(a[30]) == 30 && a[30] != '=');
    assert(sextet_of(a[31]) == 31 && a[31] != '=');
    assert(sextet_of(a[32]) == 32 && a[32] != '=');
    assert(sextet_of(a[33]) == 33 && a[33] != '=');
    assert(sextet_of(a[34]) == 34 && a[34] != '=');
    assert(sextet_of(a[35]) == 35 && a[35] != '=');
    assert(sextet_of(a[36]) == 36 && a[36] != '=');
    assert(sextet_of(a[37]) == 37 && a[37] != '=');
    assert(sextet_of(a[38]) == 38 && a[38] != '=');
    assert(sextet_of(a[39]) == 39 && a[39] != '=');
    assert(sextet_of(a[40]) == 40 && a[40] != '=');
    assert(sextet_of(a[41]) == 41 && a[41] != '=');
    assert(sextet_of(a[42]) == 42 && a[42] != '=');
    assert(sextet_of(a[43]) == 43 && a[43] != '=');
    assert(sextet_of(a[44]) == 44 && a[44] != '=');
    assert(sextet_of(a[45]) == 45 && a[45] != '=');
    assert(sextet_of(a[46]) == 46 && a[46] != '=');
    assert(sextet_of(a[47]) == 47 && a[47] != '=');
    assert(sextet_of(a[48]) == 48 && a[48] != '=');
    assert(sextet_of(a[49]) == 49 && a[49] != '=');
    assert(sextet_of(a[50]) == 50 && a[50] != '=');
    assert(sextet_of(a[51]) == 51 && a[51] != '=');
    assert(sextet_of(a[52]) == 52 && a[52] != '=');
    assert(sextet_of(a[53]) == 53 && a[53] != '=');
    assert(sextet_of(a[54]) == 54 && a[54] != '=');
    assert(sextet_of(a[55]) == 55 && a[55] != '=');
    assert(sextet_of(a[56]) == 56 && a[56] != '=');
    assert(sextet_of(a[57]) == 57 && a[57] != '=');
    assert(sextet_of(a[58]) == 58 && a[58] != '=');
    assert(sextet_of(a[59]) == 59 && a[59] != '=');
    assert(sextet_of(a[60]) == 60 && a[60] != '=');
    assert(sextet_of(a[61]) == 61 && a[61] != '=');
    assert(sextet_of(a[62]) == 62 && a[62] != '=');
    assert(sextet_of(a[63]) == 63 && a[63] != '=');
    assert forall|x: int| 0 <= x < 64 implies sextet_of(#[trigger] b64_alphabet()[x]) == x
        && b64_alphabet()[x] != '=' by {
        assert(x == 0 || x == 1 || x == 2 || x == 3 || x == 4 || x == 5 || x == 6 || x == 7 || x == 8 || x == 9 || x == 10 || x == 11 || x == 12 || x == 13 || x == 14 || x == 15 || x == 16 || x == 17 || x == 18 || x == 19 || x == 20 || x == 21 || x == 22 || x == 23 || x == 24 || x == 25 || x == 26 || x == 27 || x == 28 || x == 29 || x == 30 || x == 31 || x == 32 || x == 33 || x == 34 || x == 35 || x == 36 || x == 37 || x == 38 || x == 39 || x == 40 || x == 41 || x == 42 || x == 43 || x == 44 || x == 45 || x == 46 || x == 47 || x == 48 || x == 49 || x == 50 || x == 51 || x == 52 || x == 53 || x == 54 || x == 55 || x == 56 || x == 57 || x == 58 || x == 59 || x == 60 || x == 61 || x == 62 || x == 63);
    }
}

proof fn lemma_group_bytes(b0: int, b1: int, b2: int)
    requires
        0 <= b0 < 256,
        0 <= b1 < 256,
        0 <= b2 < 256,
    ensures
        (b0 / 4) * 4 + ((b0 % 4) * 16 + b1 / 16) / 16 == b0,
        (((b0 % 4) * 16 + b1 / 16) % 16) * 16 + ((b1 % 16) * 4 + b2 / 64) / 4 == b1,
        (((b1 % 16) * 4 + b2 / 64) % 4) * 64 + b2 % 64 == b2,
        b0 / 4 < 64,
        (b0 % 4) * 16 + b1 / 16 < 64,
        (b1 % 16) * 4 + b2 / 64 < 64,
{
    assert(((b0 % 4) * 16 + b1 / 16) / 16 == b0 % 4) by (nonlinear_arith)
        requires 0 <= b0 < 256, 0 <= b1 < 256;
    assert(((b0 % 4) * 16 + b1 / 16) % 16 == b1 / 16) by (nonlinear_arith)
        requires 0 <= b0 < 256, 0 <= b1 < 256;
    assert(((b1 % 16) * 4 + b2 / 64) / 4 == b1 % 16) by (nonlinear_arith)
        requires 0 <= b1 < 256, 0 <= b2 < 256;
    assert(((b1 % 16) * 4 + b2 / 64) % 4 == b2 / 64) by (nonlinear_arith)
        requires 0 <= b1 < 256, 0 <= b2 < 256;
}

/// Decoding the base64 text of some bytes gives the bytes back.
pub proof fn lemma_base64_round_trip(b: Seq<u8>)
    ensures
        base64_decode(base64(b)) == b,
{
    lemma_alphabet_sextets();
    let t = base64(b);
    let n = b.len() as int;
    let g = (n + 2) / 3;
    assert(t.len() == 4 * g);
    assert(t.len() / 4 == g);
    if n > 0 {
        let j1 = 4 * g - 1;
        let j2 = 4 * g - 2;
        assert(j1 / 4 == g - 1 && j1 % 4 == 3);
        assert(j2 / 4 == g - 1 && j2 % 4 == 2);
        assert(t[j1] == base64_char(b, j1));
        assert(t[j2] == base64_char(b, j2));
        if n % 3 == 1 {
            assert(base64_padding(t) == 2);
        } else if n % 3 == 2 {
            assert(base64_padding(t) == 1);
        } else {
            assert(base64_padding(t) == 0);
        }
    } else {
        assert(base64_padding(t) == 0);
    }
    assert(3 * g - base64_padding(t) == n);
    let d = base64_decode(t);
    assert forall|i: int| 0 <= i < n implies #[trigger] d[i] == b[i] by {
        let k = i / 3;
        let p = i % 3;
        assert(0 <= k < g);
        assert((4 * k) / 4 == k && (4 * k) % 4 == 0);
        assert((4 * k + 1) / 4 == k && (4 * k + 1) % 4 == 1);
        assert((4 * k + 2) / 4 == k && (4 * k + 2) % 4 == 2);
        assert((4 * k + 3) / 4 == k && (4 * k + 3) % 4 == 3);
        assert(t[4 * k] == base64_char(b, 4 * k));
        assert(t[4 * k + 1] == base64_char(b, 4 * k + 1));
        assert(t[4 * k + 2] == base64_char(b, 4 * k + 2));
        assert(t[4 * k + 3] == base64_char(b, 4 * k + 3));
        let b0 = b[3 * k] as int;
        let b1 = if 3 * k + 1 < n {
            b[3 * k + 1] as int
        } else {
            0
        };
        let b2 = if 3 * k + 2 < n {
            b[3 * k + 2] as int
        } else {
            0
        };
        lemma_group_bytes(b0, b1, b2);
    }
    assert(d =~= b);
}

} // verus!
