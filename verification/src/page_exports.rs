//! The naming and checking behind page-function relays.
//!
//! A block of page functions (JS hooks on the page) gets one export that lists the
//! functions' names. The export is named after the crate and an FNV-1a hash of the crate
//! name followed by the block's text, so that blocks never share an export name by
//! accident. A function that returns a value must be `async` or return a promise,
//! because the relays answer asynchronously.
use vstd::prelude::*;
use vstd::string::{StringExecFns, StringSliceAdditionalSpecFns};
use vstd::utf8::{encode_scalar, encode_utf8};
use vstd::arithmetic::div_mod::{lemma_div_denominator, lemma_fundamental_div_mod};

verus! {

/// The FNV-1a offset basis for 32-bit hashes.
pub const FNV_OFFSET_BASIS: u32 = 0x811c_9dc5;

/// The FNV-1a prime for 32-bit hashes.
pub const FNV_PRIME: u32 = 0x0100_0193;

/// One FNV-1a round: xor in the byte, then multiply by the prime modulo 2^32.
pub open spec fn fnv1a_step(hash: u32, byte: u8) -> u32 {
    (((hash ^ (byte as u32)) as nat * FNV_PRIME as nat) % 0x1_0000_0000) as u32
}

/// The FNV-1a rounds over `bytes`, in order, starting from `hash`.
pub open spec fn fnv1a_fold(hash: u32, bytes: Seq<u8>) -> u32
    decreases bytes.len(),
{
    if bytes.len() == 0 {
        hash
    } else {
        fnv1a_step(fnv1a_fold(hash, bytes.drop_last()), bytes.last())
    }
}

/// The 32-bit FNV-1a hash of `bytes`.
pub open spec fn fnv1a_hash(bytes: Seq<u8>) -> u32 {
    fnv1a_fold(FNV_OFFSET_BASIS, bytes)
}

/// The hash of a concatenation continues from the hash of its first part: hashing `a`
/// and then `b` is hashing `a + b`.
pub proof fn lemma_fnv1a_fold_concat(hash: u32, a: Seq<u8>, b: Seq<u8>)
    ensures
        fnv1a_fold(hash, a + b) == fnv1a_fold(fnv1a_fold(hash, a), b),
    decreases b.len(),
{
    if b.len() == 0 {
        assert(a + b =~= a);
    } else {
        lemma_fnv1a_fold_concat(hash, a, b.drop_last());
        assert((a + b).drop_last() =~= a + b.drop_last());
        assert((a + b).last() == b.last());
    }
}

/// FNV-1a rounds over `bytes`, continuing from `hash`.
fn fnv1a_continue(hash: u32, bytes: &[u8]) -> (r: u32)
    ensures
        r == fnv1a_fold(hash, bytes@),
{
    let mut h = hash;
    let n = bytes.len();
    let mut i: usize = 0;
    while i < n
        invariant
            n == bytes@.len(),
            i <= n,
            h == fnv1a_fold(hash, bytes@.take(i as int)),
        decreases n - i,
    {
        let byte = bytes[i];
        proof {
            assert(bytes@.take(i + 1).drop_last() =~= bytes@.take(i as int));
        }
        h = (h ^ (byte as u32)).wrapping_mul(FNV_PRIME);
        i = i + 1;
    }
    proof {
        assert(bytes@.take(n as int) =~= bytes@);
    }
    h
}

/// The 32-bit FNV-1a hash of the UTF-8 bytes of `s`.
pub fn fnv1a(s: &str) -> (r: u32)
    ensures
        r == fnv1a_hash(s.spec_bytes()),
{
    fnv1a_continue(FNV_OFFSET_BASIS, s.as_bytes())
}

/// The UTF-8 encoding of a concatenation is the concatenation of the encodings.
pub proof fn lemma_encode_utf8_concat(a: Seq<char>, b: Seq<char>)
    ensures
        encode_utf8(a + b) == encode_utf8(a) + encode_utf8(b),
    decreases a.len(),
{
    if a.len() == 0 {
        assert(a + b =~= b);
        assert(encode_utf8(a) =~= Seq::<u8>::empty());
        assert(encode_utf8(a) + encode_utf8(b) =~= encode_utf8(b));
    } else {
        lemma_encode_utf8_concat(a.drop_first(), b);
        assert((a + b).drop_first() =~= a.drop_first() + b);
        assert((a + b)[0] == a[0]);
        assert(encode_utf8(a + b) =~= encode_scalar(a[0] as u32) + encode_utf8(a.drop_first() + b));
    }
}

/// The lowercase hexadecimal digit for a value below 16.
pub open spec fn hex_digit(d: nat) -> char {
    if d < 10 {
        (48 + d) as char
    } else {
        (87 + d) as char
    }
}

/// `16` raised to `n`.
pub open spec fn pow16(n: nat) -> nat
    decreases n,
{
    if n == 0 {
        1
    } else {
        16 * pow16((n - 1) as nat)
    }
}

/// Every power of sixteen is at least one.
proof fn lemma_pow16_positive(n: nat)
    ensures
        pow16(n) >= 1,
    decreases n,
{
    if n > 0 {
        lemma_pow16_positive((n - 1) as nat);
    }
}

/// `value` written as exactly eight lowercase hexadecimal digits, most significant first.
pub open spec fn hex8(value: u32) -> Seq<char> {
    Seq::new(8, |i: int| hex_digit((value as nat / pow16((7 - i) as nat)) % 16))
}

/// The character is a lowercase hexadecimal digit: `0` to `9` or `a` to `f`.
pub open spec fn is_lower_hex_digit(c: char) -> bool {
    (48 <= c as int && c as int <= 57) || (97 <= c as int && c as int <= 102)
}

/// The value of a lowercase hexadecimal digit.
pub open spec fn hex_digit_value(c: char) -> int {
    if c as int <= 57 {
        c as int - 48
    } else {
        c as int - 87
    }
}

/// The number that a string of hexadecimal digits spells, most significant digit first.
pub open spec fn hex_value(digits: Seq<char>) -> int
    decreases digits.len(),
{
    if digits.len() == 0 {
        0
    } else {
        hex_value(digits.drop_last()) * 16 + hex_digit_value(digits.last())
    }
}

/// The first `k` digits of `hex8(value)` spell `value` with its last `8 - k` digits cut off.
proof fn lemma_hex8_prefix(value: u32, k: nat)
    requires
        k <= 8,
    ensures
        hex_value(hex8(value).take(k as int)) == value as nat / pow16((8 - k) as nat),
    decreases k,
{
    let s = hex8(value);
    if k == 0 {
        assert(pow16(8) == 0x1_0000_0000) by {
            reveal_with_fuel(pow16, 9);
        }
        assert(s.take(0) =~= Seq::<char>::empty());
    } else {
        lemma_hex8_prefix(value, (k - 1) as nat);
        let p = pow16((8 - k) as nat);
        lemma_pow16_positive((8 - k) as nat);
        assert(pow16((9 - k) as nat) == 16 * p);
        let d = (value as nat / p) % 16;
        let c = hex_digit(d);
        if d < 10 {
            assert(c as int == 48 + d);
        } else {
            assert(c as int == 87 + d);
        }
        assert(hex_digit_value(c) == d);
        assert(s.take(k as int).drop_last() =~= s.take(k - 1));
        assert(s.take(k as int).last() == c);
        let x = value as int;
        lemma_div_denominator(x, p as int, 16);
        lemma_fundamental_div_mod(x / (p as int), 16);
        assert(hex_value(s.take(k as int)) == (x / (p as int)) / 16 * 16 + d);
    }
}

/// `hex8(value)` is the eight-digit lowercase hexadecimal numeral of `value`: exactly
/// eight digits, zero-padded on the left, that read back as `value`.
pub proof fn lemma_hex8_reads_back(value: u32)
    ensures
        hex8(value).len() == 8,
        forall|i: int| 0 <= i < 8 ==> is_lower_hex_digit(#[trigger] hex8(value)[i]),
        hex_value(hex8(value)) == value,
{
    lemma_hex8_prefix(value, 8);
    assert(pow16(0) == 1);
    assert(value as nat / 1 == value as nat);
    assert(hex8(value).take(8) =~= hex8(value));
    assert(hex_value(hex8(value).take(8)) == value as nat / pow16(0));
    assert forall|i: int| 0 <= i < 8 implies is_lower_hex_digit(#[trigger] hex8(value)[i]) by {
        lemma_pow16_positive((7 - i) as nat);
        let d = (value as nat / pow16((7 - i) as nat)) % 16;
        if d < 10 {
            assert(hex_digit(d) as int == 48 + d);
        } else {
            assert(hex_digit(d) as int == 87 + d);
        }
    }
}

/// `String::push` of std: claims the string gains `c` at its end.
#[verifier::external_body]
pub(crate) fn push_char(s: &mut String, c: char)
    ensures
        final(s)@ == old(s)@.push(c),
{
    s.push(c)
}

/// Appends `value` as eight lowercase hexadecimal digits, zero-padded.
fn push_hex8(out: &mut String, value: u32)
    ensures
        final(out)@ == old(out)@ + hex8(value),
{
    let ghost start = out@;
    let mut divisor: u32 = 0x1000_0000;
    let mut i: usize = 0;
    assert(pow16(7) == 0x1000_0000) by {
        reveal_with_fuel(pow16, 8);
    }
    while i < 8
        invariant
            i <= 8,
            i < 8 ==> divisor as nat == pow16((7 - i) as nat),
            divisor >= 1,
            out@ =~= start + hex8(value).take(i as int),
        decreases 8 - i,
    {
        let d: u32 = (value / divisor) % 16;
        let c: char = if d < 10 {
            ((48 + d) as u8) as char
        } else {
            ((87 + d) as u8) as char
        };
        assert(c == hex_digit(d as nat));
        push_char(out, c);
        proof {
            assert(hex8(value).take(i + 1) =~= hex8(value).take(i as int).push(hex8(value)[i as int]));
        }
        if i < 7 {
            proof {
                assert(pow16((7 - i) as nat) == 16 * pow16((7 - i - 1) as nat));
                lemma_pow16_positive((7 - i - 1) as nat);
            }
            divisor = divisor / 16;
        }
        i = i + 1;
    }
    proof {
        assert(hex8(value).take(8) =~= hex8(value));
    }
}

/// The name of the export that lists a block's page functions:
/// `__bevy_page_functions_{crate_name}_{hash}`, where `hash` is the FNV-1a hash of the
/// crate name followed by the block's text, in eight lowercase hexadecimal digits.
pub fn export_name(crate_name: &str, block_text: &str) -> (r: String)
    ensures
        r@ == "__bevy_page_functions_"@ + crate_name@ + "_"@ + hex8(
            fnv1a_hash(encode_utf8(crate_name@ + block_text@)),
        ),
{
    let hash = fnv1a_continue(fnv1a_continue(FNV_OFFSET_BASIS, crate_name.as_bytes()), block_text.as_bytes());
    proof {
        lemma_encode_utf8_concat(crate_name@, block_text@);
        lemma_fnv1a_fold_concat(FNV_OFFSET_BASIS, crate_name.spec_bytes(), block_text.spec_bytes());
    }
    let mut out = String::from_str("__bevy_page_functions_");
    out.append(crate_name);
    out.append("_");
    push_hex8(&mut out, hash);
    out
}

/// What the relay check needs to know of one item of a block of page functions.
#[derive(Clone, Debug, PartialEq)]
pub enum PageItem {
    /// A function, with the name it has on the page.
    Function {
        /// The name the function has on the page: its `js_name`, or else its own name.
        page_name: String,
        /// Whether it is declared `async`.
        is_async: bool,
        /// Whether it declares a return type.
        returns_value: bool,
        /// Whether the return type is a path ending in `Promise`.
        returns_promise: bool,
    },
    /// Anything that is not a function.
    Other,
}

/// The item is a function the relays cannot serve: a synchronous one returning a value
/// that is not a promise.
pub open spec fn unrelayable(item: PageItem) -> bool {
    match item {
        PageItem::Function { is_async, returns_value, returns_promise, .. } => !is_async
            && returns_value && !returns_promise,
        PageItem::Other => false,
    }
}

/// The position of the first item the relays cannot serve, if any.
pub fn first_unrelayable(items: &Vec<PageItem>) -> (r: Option<usize>)
    ensures
        match r {
            Some(i) => i < items@.len() && unrelayable(items@[i as int]) && forall|j: int|
                0 <= j < i ==> !unrelayable(#[trigger] items@[j]),
            None => forall|j: int| 0 <= j < items@.len() ==> !unrelayable(#[trigger] items@[j]),
        },
{
    let n = items.len();
    let mut i: usize = 0;
    while i < n
        invariant
            n == items@.len(),
            i <= n,
            forall|j: int| 0 <= j < i ==> !unrelayable(#[trigger] items@[j]),
        decreases n - i,
    {
        let bad = match &items[i] {
            PageItem::Function { is_async, returns_value, returns_promise, .. } => !*is_async
                && *returns_value && !*returns_promise,
            PageItem::Other => false,
        };
        if bad {
            return Some(i);
        }
        i = i + 1;
    }
    None
}

/// The page names of the functions among `items`, in order.
pub open spec fn page_names(items: Seq<PageItem>) -> Seq<Seq<char>>
    decreases items.len(),
{
    if items.len() == 0 {
        Seq::empty()
    } else {
        let rest = page_names(items.drop_last());
        match items.last() {
            PageItem::Function { page_name, .. } => rest.push(page_name@),
            PageItem::Other => rest,
        }
    }
}

/// The item is a function, whatever its flags.
pub open spec fn is_function(item: PageItem) -> bool {
    item is Function
}

/// The page name of an item, empty for an item that is not a function.
pub open spec fn page_name_of(item: PageItem) -> Seq<char> {
    match item {
        PageItem::Function { page_name, .. } => page_name@,
        PageItem::Other => Seq::empty(),
    }
}

/// Every function of a block is relayed, whether or not it is `async` and whatever it
/// returns: the relayed names are the page names of the block's function items, one
/// each, in the block's order.
pub proof fn lemma_page_names_are_all_functions(items: Seq<PageItem>)
    ensures
        page_names(items) == items.filter(|it: PageItem| is_function(it)).map_values(
            |it: PageItem| page_name_of(it),
        ),
        page_names(items).len() == items.filter(|it: PageItem| is_function(it)).len(),
    decreases items.len(),
{
    let p = |it: PageItem| is_function(it);
    let f = |it: PageItem| page_name_of(it);
    reveal(Seq::filter);
    if items.len() == 0 {
        assert(items.filter(p) =~= Seq::<PageItem>::empty());
        assert(items.filter(p).map_values(f) =~= Seq::<Seq<char>>::empty());
    } else {
        lemma_page_names_are_all_functions(items.drop_last());
        let rest = items.drop_last().filter(p);
        if p(items.last()) {
            assert(items.filter(p) == rest.push(items.last()));
            assert(rest.push(items.last()).map_values(f) =~= rest.map_values(f).push(f(items.last())));
        } else {
            assert(items.filter(p) == rest);
        }
    }
}

/// The page names of the functions among `items`, in order; the relays are made for
/// these.
pub fn relayed_names(items: &Vec<PageItem>) -> (r: Vec<String>)
    ensures
        r@.map_values(|s: String| s@) == page_names(items@),
{
    let n = items.len();
    let mut out: Vec<String> = Vec::new();
    let mut i: usize = 0;
    while i < n
        invariant
            n == items@.len(),
            i <= n,
            out@.map_values(|s: String| s@) =~= page_names(items@.take(i as int)),
        decreases n - i,
    {
        proof {
            assert(items@.take(i + 1).drop_last() =~= items@.take(i as int));
        }
        match &items[i] {
            PageItem::Function { page_name, .. } => {
                out.push(page_name.clone());
            },
            PageItem::Other => {},
        }
        i = i + 1;
    }
    proof {
        assert(items@.take(n as int) =~= items@);
    }
    out
}

} // verus!
