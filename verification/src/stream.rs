//! The stream cipher engine: the substitution table that a derived key
//! schedules, and the keystream that the table gives for the audio payload.

use vstd::prelude::*;
use vstd::arithmetic::div_mod::{lemma_mod_self_0, lemma_small_mod};

verus! {

/// The number of bytes of the audio payload that are decoded in one piece.
/// Positions in the keystream are counted from the start of each piece.
pub const CHUNK_SIZE: u64 = 0x8000;

/// The table before any key is scheduled: every byte value at its own index.
pub open spec fn identity_table() -> Seq<u8> {
    Seq::new(256, |i: int| i as u8)
}

/// Where the key schedule stands between two of its steps.
pub struct Schedule {
    pub table: Seq<u8>,
    /// The index that the step before swapped with.
    pub last: int,
    /// The index of the key byte that the next step takes.
    pub offset: int,
}

/// Step `i` of the key schedule: the entry at `i` changes places with the
/// entry at the sum, modulo 256, of that entry, the index of the previous
/// swap and the next key byte.
pub open spec fn schedule_step(key: Seq<u8>, before: Schedule, i: int) -> Schedule {
    let swap = before.table[i];
    let temp = (swap + before.last + key[before.offset]) % 256;
    Schedule {
        table: before.table.update(i, before.table[temp]).update(temp, swap),
        last: temp,
        offset: (before.offset + 1) % (key.len() as int),
    }
}

/// The key schedule after its first `steps` steps.
pub open spec fn schedule(key: Seq<u8>, steps: nat) -> Schedule
    decreases steps,
{
    if steps == 0 {
        Schedule { table: identity_table(), last: 0, offset: 0 }
    } else {
        schedule_step(key, schedule(key, (steps - 1) as nat), steps - 1)
    }
}

/// The substitution table of a key: the table after all 256 steps, in one
/// pass over the indices 0 to 255.
pub open spec fn key_box(key: Seq<u8>) -> Seq<u8> {
    schedule(key, 256).table
}

/// A table of 256 entries that holds every byte value exactly once: no value
/// stands at two indices, and every value stands at one.
pub open spec fn is_permutation(table: Seq<u8>) -> bool {
    &&& table.len() == 256
    &&& forall|i: int, j: int| 0 <= i < j < 256 ==> table[i] != table[j]
    &&& forall|v: u8| #[trigger] table.contains(v)
}

/// Changing the places of two entries of a permutation gives a permutation.
pub proof fn lemma_swap_keeps_permutation(table: Seq<u8>, i: int, j: int)
    requires
        is_permutation(table),
        0 <= i < 256,
        0 <= j < 256,
    ensures
        is_permutation(table.update(i, table[j]).update(j, table[i])),
{
    let swapped = table.update(i, table[j]).update(j, table[i]);
    assert forall|v: u8| #[trigger] swapped.contains(v) by {
        assert(table.contains(v));
        let at = choose|k: int| 0 <= k < table.len() && table[k] == v;
        if at == i {
            assert(swapped[j] == v);
        } else if at == j {
            assert(swapped[i] == v);
        } else {
            assert(swapped[at] == v);
        }
    }
}

/// Every state of the key schedule holds a permutation, an index below 256
/// and an offset inside the key.
pub proof fn lemma_schedule_permutes(key: Seq<u8>, steps: nat)
    requires
        key.len() > 0,
        steps <= 256,
    ensures
        is_permutation(schedule(key, steps).table),
        0 <= schedule(key, steps).last < 256,
        0 <= schedule(key, steps).offset < key.len(),
    decreases steps,
{
    if steps == 0 {
        let table = identity_table();
        assert forall|v: u8| #[trigger] table.contains(v) by {
            assert(table[v as int] == v);
        }
    } else {
        let before = schedule(key, (steps - 1) as nat);
        lemma_schedule_permutes(key, (steps - 1) as nat);
        let i = steps - 1;
        let temp = (before.table[i] + before.last + key[before.offset]) % 256;
        lemma_swap_keeps_permutation(before.table, i, temp);
    }
}

/// The substitution table of every key that holds a byte is a permutation of
/// the 256 byte values.
pub proof fn lemma_key_box_is_permutation(key: Seq<u8>)
    requires
        key.len() > 0,
    ensures
        is_permutation(key_box(key)),
{
    lemma_schedule_permutes(key, 256);
}

/// The keystream byte for position `j`, `0 <= j < 256`: the table entry at
/// the sum, modulo 256, of the entry at `j` and the entry that this entry
/// plus `j` points to.
pub open spec fn keystream_byte(table: Seq<u8>, j: int) -> u8 {
    table[(table[j] + table[(table[j] + j) % 256]) % 256]
}

/// One piece of the payload with the keystream applied: the byte at 1-based
/// position `i` is XORed with the keystream byte for `i % 256`.
pub open spec fn chunk_applied(table: Seq<u8>, chunk: Seq<u8>) -> Seq<u8> {
    Seq::new(chunk.len(), |k: int| chunk[k] ^ keystream_byte(table, (k + 1) % 256))
}

/// A payload with the keystream applied piece by piece: positions are
/// counted anew in every piece of `CHUNK_SIZE` bytes.
pub open spec fn stream_applied(table: Seq<u8>, data: Seq<u8>) -> Seq<u8> {
    Seq::new(
        data.len(),
        |g: int| data[g] ^ keystream_byte(table, (g % (CHUNK_SIZE as int) + 1) % 256),
    )
}

/// XOR with the same byte twice gives the first byte back.
proof fn lemma_xor_twice(a: u8, b: u8)
    ensures
        (a ^ b) ^ b == a,
{
    assert((a ^ b) ^ b == a) by (bit_vector);
}

/// Applying the keystream of one table twice to a piece gives the piece back.
pub proof fn lemma_chunk_self_inverse(table: Seq<u8>, chunk: Seq<u8>)
    ensures
        chunk_applied(table, chunk_applied(table, chunk)) == chunk,
{
    let once = chunk_applied(table, chunk);
    let twice = chunk_applied(table, once);
    assert forall|k: int| 0 <= k < chunk.len() implies twice[k] == chunk[k] by {
        lemma_xor_twice(chunk[k], keystream_byte(table, (k + 1) % 256));
    }
    assert(twice =~= chunk);
}

/// Applying the keystream of one table twice to a payload, with the same
/// division into pieces, gives the payload back.
pub proof fn lemma_stream_self_inverse(table: Seq<u8>, data: Seq<u8>)
    ensures
        stream_applied(table, stream_applied(table, data)) == data,
{
    let once = stream_applied(table, data);
    let twice = stream_applied(table, once);
    assert forall|g: int| 0 <= g < data.len() implies twice[g] == data[g] by {
        lemma_xor_twice(data[g], keystream_byte(table, (g % (CHUNK_SIZE as int) + 1) % 256));
    }
    assert(twice =~= data);
}

/// A payload with the keystream applied is as long as the payload, and is
/// made of its pieces with the keystream applied to each.
pub proof fn lemma_stream_by_chunks(table: Seq<u8>, data: Seq<u8>, start: int, end: int)
    requires
        0 <= start <= end <= data.len(),
        start % (CHUNK_SIZE as int) == 0,
        end - start <= CHUNK_SIZE,
    ensures
        stream_applied(table, data).len() == data.len(),
        stream_applied(table, data).subrange(start, end) == chunk_applied(
            table,
            data.subrange(start, end),
        ),
{
    let whole = stream_applied(table, data);
    let piece = chunk_applied(table, data.subrange(start, end));
    assert forall|k: int| 0 <= k < end - start implies whole[start + k] == piece[k] by {
        assert((start + k) % (CHUNK_SIZE as int) == k);
    }
    assert(whole.subrange(start, end) =~= piece);
}

/// The substitution table of one container: a permutation of the byte
/// values, made once from the derived key and only read afterwards.
#[derive(Debug)]
pub struct KeyBox {
    table: Vec<u8>,
}

impl View for KeyBox {
    type V = Seq<u8>;

    closed spec fn view(&self) -> Seq<u8> {
        self.table@
    }
}

impl KeyBox {
    #[verifier::type_invariant]
    spec fn has_all_entries(&self) -> bool {
        self.table@.len() == 256
    }

    /// Schedules `key` into its substitution table. The key holds at least
    /// one byte.
    pub fn new(key: &[u8]) -> (scheduled: KeyBox)
        requires
            key@.len() > 0,
        ensures
            scheduled@ == key_box(key@),
            is_permutation(scheduled@),
    {
        let key_length = key.len();
        let mut table: Vec<u8> = Vec::with_capacity(256);
        let mut value: u8 = 0;
        while table.len() < 256
            invariant
                table@.len() <= 256,
                value as int == table@.len() % 256,
                table@ == identity_table().take(table@.len() as int),
            decreases 256 - table@.len(),
        {
            table.push(value);
            value = if value == 255 {
                0
            } else {
                value + 1
            };
        }
        proof {
            assert(identity_table().take(256) == identity_table());
        }
        let mut last: usize = 0;
        let mut offset: usize = 0;
        let mut i: usize = 0;
        while i < 256
            invariant
                i <= 256,
                key_length == key@.len(),
                key_length > 0,
                table@.len() == 256,
                table@ == schedule(key@, i as nat).table,
                last == schedule(key@, i as nat).last,
                offset == schedule(key@, i as nat).offset,
                last < 256,
                offset < key_length,
            decreases 256 - i,
        {
            let swap = table[i];
            let temp: usize = (swap as usize + last + key[offset] as usize) % 256;
            proof {
                if offset + 1 < key_length {
                    lemma_small_mod((offset + 1) as nat, key_length as nat);
                } else {
                    lemma_mod_self_0(key_length as int);
                }
            }
            offset = offset + 1;
            if offset >= key_length {
                offset = 0;
            }
            let moved = table[temp];
            table[i] = moved;
            table[temp] = swap;
            last = temp;
            i = i + 1;
        }
        proof {
            lemma_key_box_is_permutation(key@);
        }
        KeyBox { table }
    }

    /// The entries of the table, in order.
    pub fn table(&self) -> (table: &[u8])
        ensures
            table@ == self@,
            table@.len() == 256,
    {
        proof {
            use_type_invariant(self);
        }
        self.table.as_slice()
    }

    /// The keystream byte for position `j`, which is below 256.
    pub fn keystream(&self, j: usize) -> (byte: u8)
        requires
            j < 256,
        ensures
            byte == keystream_byte(self@, j as int),
    {
        proof {
            use_type_invariant(self);
        }
        let first = self.table[j] as usize;
        let second = self.table[(first + j) % 256] as usize;
        self.table[(first + second) % 256]
    }

    /// Applies the keystream to one piece of the payload, in place, counting
    /// positions from the start of the piece.
    pub fn apply(&self, chunk: &mut [u8])
        ensures
            final(chunk)@ == chunk_applied(self@, old(chunk)@),
    {
        let length = chunk.len();
        let mut k: usize = 0;
        let mut j: usize = 1;
        while k < length
            invariant
                k <= length,
                length == chunk@.len(),
                chunk@.len() == old(chunk)@.len(),
                j as int == (k + 1) % 256,
                forall|n: int| 0 <= n < k ==> chunk@[n] == old(chunk)@[n] ^ keystream_byte(
                    self@,
                    (n + 1) % 256,
                ),
                forall|n: int| k <= n < length ==> chunk@[n] == old(chunk)@[n],
            decreases length - k,
        {
            chunk[k] = chunk[k] ^ self.keystream(j);
            j = if j == 255 {
                0
            } else {
                j + 1
            };
            k = k + 1;
        }
    }
}

} // verus!
