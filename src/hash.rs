use vstd::prelude::*;

verus! {

/// The identifier of one submitted transaction: thirty-two bytes.
#[derive(Clone, Copy, Debug)]
pub struct TxnHash {
    pub bytes: [u8; 32],
}

/// Bytes taken by one quoted hash in a faucet reply: a quote, sixty-four hex digits, a
/// quote, and the comma or bracket that follows.
pub const ITEM_WIDTH: usize = 67;

pub open spec fn is_hex_digit(c: u8) -> bool {
    (48 <= c <= 57) || (65 <= c <= 70) || (97 <= c <= 102)
}

/// The value of a hexadecimal digit of either case.
pub open spec fn hex_value(c: u8) -> int {
    if 48 <= c <= 57 {
        c - 48
    } else if 65 <= c <= 70 {
        c - 55
    } else {
        c - 87
    }
}

/// The sixty-four bytes from `at` on are all hexadecimal digits.
pub open spec fn hex_run(b: Seq<u8>, at: int) -> bool {
    forall|j: int| 0 <= j < 64 ==> #[trigger] is_hex_digit(b[at + j])
}

/// The thirty-two bytes written as hexadecimal digits from `at` on, high digit first.
pub open spec fn hex_bytes(b: Seq<u8>, at: int) -> Seq<u8> {
    Seq::new(32, |i: int| (16 * hex_value(b[at + 2 * i]) + hex_value(b[at + 2 * i + 1])) as u8)
}

/// Number of items in a reply of length `len` that has the width of a list.
pub open spec fn item_count(len: int) -> int {
    (len - 1) / 67
}

/// The item `k` of the list in `b` is a quoted hash, followed by a comma unless it is last.
pub open spec fn item_ok(b: Seq<u8>, k: int) -> bool {
    let s = 1 + 67 * k;
    &&& b[s] == 34u8
    &&& b[s + 65] == 34u8
    &&& hex_run(b, s + 1)
    &&& k + 1 < item_count(b.len() as int) ==> b[s + 66] == 44u8
}

/// A faucet reply lists hashes as a JSON array of quoted hexadecimal strings with no
/// spaces: `[]` or `["<64 hex digits>","<64 hex digits>"]`.
pub open spec fn is_hash_list(b: Seq<u8>) -> bool {
    &&& b.len() >= 2
    &&& b[0] == 91u8
    &&& b[b.len() - 1] == 93u8
    &&& (b.len() == 2 || (b.len() - 1) % 67 == 0)
    &&& forall|k: int| 0 <= k < item_count(b.len() as int) ==> #[trigger] item_ok(b, k)
}

/// The hash that item `k` of the list in `b` spells.
pub open spec fn item_hash(b: Seq<u8>, k: int) -> Seq<u8> {
    hex_bytes(b, 1 + 67 * k + 1)
}

/// The hashes of a reply, in the order written; `None` where it is no such list.
pub open spec fn decode_list(b: Seq<u8>) -> Option<Seq<Seq<u8>>> {
    if is_hash_list(b) {
        Some(Seq::new(item_count(b.len() as int) as nat, |k: int| item_hash(b, k)))
    } else {
        None
    }
}

/// The hashes of `hs`, as byte sequences.
pub open spec fn hash_seqs(hs: Seq<TxnHash>) -> Seq<Seq<u8>> {
    Seq::new(hs.len(), |i: int| hs[i].bytes@)
}

fn hex_digit_value(c: u8) -> (r: Option<u8>)
    ensures
        r is Some <==> is_hex_digit(c),
        r is Some ==> r->0 as int == hex_value(c) && r->0 < 16,
{
    if 48 <= c && c <= 57 {
        Some(c - 48)
    } else if 65 <= c && c <= 70 {
        Some(c - 55)
    } else if 97 <= c && c <= 102 {
        Some(c - 87)
    } else {
        None
    }
}

/// Reads the hash written as sixty-four hexadecimal digits from `at` on.
fn decode_hash(b: &[u8], at: usize) -> (r: Option<TxnHash>)
    requires
        at + 64 <= b.len(),
    ensures
        r is Some <==> hex_run(b@, at as int),
        r is Some ==> r->0.bytes@ == hex_bytes(b@, at as int),
{
    let mut bytes: [u8; 32] = [0u8; 32];
    let mut i: usize = 0;
    while i < 32
        invariant
            at + 64 <= b.len(),
            i <= 32,
            forall|j: int| 0 <= j < 2 * i ==> #[trigger] is_hex_digit(b@[at + j]),
            forall|j: int|
                0 <= j < i ==> bytes@[j] == (16 * hex_value(b@[at + 2 * j]) + hex_value(
                    b@[at + 2 * j + 1],
                )) as u8,
        decreases 32 - i,
    {
        let hi = match hex_digit_value(b[at + 2 * i]) {
            Some(v) => v,
            None => {
                assert(!is_hex_digit(b@[at + 2 * i as int]));
                return None;
            },
        };
        let lo = match hex_digit_value(b[at + 2 * i + 1]) {
            Some(v) => v,
            None => {
                assert(!is_hex_digit(b@[at + (2 * i + 1) as int]));
                return None;
            },
        };
        bytes[i] = hi * 16 + lo;
        proof {
            assert forall|j: int| 0 <= j < 2 * (i + 1) implies #[trigger] is_hex_digit(b@[at + j]) by {
                if j == 2 * i {
                } else if j == 2 * i + 1 {
                }
            }
        }
        i = i + 1;
    }
    assert(bytes@ =~= hex_bytes(b@, at as int));
    Some(TxnHash { bytes })
}

/// Reads the hashes that a faucet reply lists, in order. Returns `None` exactly where the
/// reply is not such a list.
pub fn decode_hash_list(body: &[u8]) -> (r: Option<Vec<TxnHash>>)
    ensures
        r is Some <==> decode_list(body@) is Some,
        r is Some ==> hash_seqs(r->0@) == decode_list(body@)->0,
{
    let n = body.len();
    if n < 2 || body[0] != 91u8 || body[n - 1] != 93u8 {
        return None;
    }
    if n != 2 && (n - 1) % ITEM_WIDTH != 0 {
        return None;
    }
    let count = (n - 1) / ITEM_WIDTH;
    let mut out: Vec<TxnHash> = Vec::new();
    let mut k: usize = 0;
    while k < count
        invariant
            n == body@.len(),
            n >= 2,
            n == 2 || (n - 1) % 67 == 0,
            count == item_count(n as int),
            k <= count,
            out@.len() == k,
            forall|j: int| 0 <= j < k ==> #[trigger] item_ok(body@, j),
            forall|j: int| 0 <= j < k ==> #[trigger] out@[j].bytes@ == item_hash(body@, j),
        decreases count - k,
    {
        let s = 1 + ITEM_WIDTH * k;
        if body[s] != 34u8 || body[s + 65] != 34u8 {
            assert(!item_ok(body@, k as int));
            return None;
        }
        if k + 1 < count && body[s + 66] != 44u8 {
            assert(!item_ok(body@, k as int));
            return None;
        }
        match decode_hash(body, s + 1) {
            Some(h) => {
                out.push(h);
            },
            None => {
                assert(!item_ok(body@, k as int));
                return None;
            },
        }
        k = k + 1;
    }
    assert(hash_seqs(out@) =~= decode_list(body@)->0);
    Some(out)
}

} // verus!
