use vstd::prelude::*;
use vstd::slice::slice_subrange;
use vstd::slice::slice_to_vec;

verus! {

/// Number of bytes in the serialized proof of a single partition.
pub const SINGLE_PARTITION_PROOF_LEN: usize = 192;

/// Number of bytes in a commitment.
pub const COMMITMENT_LEN: usize = 32;

/// Largest number of partitions a proof may be made of.
pub const MAX_PROOF_PARTITIONS: usize = 255;

/// Why a buffer handed over by the caller could not be decoded.
#[derive(Clone, Copy, Debug, PartialEq, Eq, Structural)]
pub enum DecodeError {
    /// The proof buffer is empty.
    NoProofs,
    /// The length of a replication proof is no multiple of the single-partition proof length.
    NoPartitionsMapping { len: usize },
    /// The number of partitions is zero or larger than `MAX_PROOF_PARTITIONS`.
    UnsupportedPartitions { count: usize },
    /// The flattened proofs cannot be cut into proofs of the given number of partitions.
    IncompatibleProofs { len: usize, partitions: u8 },
    /// The flattened commitments cannot be cut into commitments.
    IncompatibleCommitments { len: usize },
}

/// The character of the decimal digit `d`.
pub open spec fn digit_char(d: nat) -> char {
    if d == 0 {
        '0'
    } else if d == 1 {
        '1'
    } else if d == 2 {
        '2'
    } else if d == 3 {
        '3'
    } else if d == 4 {
        '4'
    } else if d == 5 {
        '5'
    } else if d == 6 {
        '6'
    } else if d == 7 {
        '7'
    } else if d == 8 {
        '8'
    } else {
        '9'
    }
}

/// `n` written in decimal digits, the most significant first, without leading zeros.
pub open spec fn decimal_spec(n: nat) -> Seq<char>
    decreases n,
{
    if n < 10 {
        seq![digit_char(n)]
    } else {
        decimal_spec(n / 10) + seq![digit_char(n % 10)]
    }
}

/// The text of a single decimal digit.
fn digit_str(d: usize) -> (text: &'static str)
    requires
        d < 10,
    ensures
        text@ == seq![digit_char(d as nat)],
{
    proof {
        reveal_strlit("0");
        reveal_strlit("1");
        reveal_strlit("2");
        reveal_strlit("3");
        reveal_strlit("4");
        reveal_strlit("5");
        reveal_strlit("6");
        reveal_strlit("7");
        reveal_strlit("8");
        reveal_strlit("9");
    }
    let text = if d == 0 {
        "0"
    } else if d == 1 {
        "1"
    } else if d == 2 {
        "2"
    } else if d == 3 {
        "3"
    } else if d == 4 {
        "4"
    } else if d == 5 {
        "5"
    } else if d == 6 {
        "6"
    } else if d == 7 {
        "7"
    } else if d == 8 {
        "8"
    } else {
        "9"
    };
    assert(text@ =~= seq![digit_char(d as nat)]);
    text
}

/// Writes `n` in decimal digits.
pub fn decimal_string(n: usize) -> (text: String)
    ensures
        text@ == decimal_spec(n as nat),
    decreases n,
{
    if n < 10 {
        digit_str(n).to_owned()
    } else {
        let mut text = decimal_string(n / 10);
        text.append(digit_str(n % 10));
        text
    }
}

impl DecodeError {
    /// The text that describes each error, with the numbers that were found.
    pub open spec fn message_spec(self) -> Seq<char> {
        match self {
            DecodeError::NoProofs => "no proofs in chunked vec"@,
            DecodeError::NoPartitionsMapping { len } =>
                "no PoRepProofPartitions mapping for proof len="@ + decimal_spec(len as nat),
            DecodeError::UnsupportedPartitions { count } => "unsupported number of partitions="@
                + decimal_spec(count as nat),
            DecodeError::IncompatibleProofs { len, partitions } => "proofs array len="@
                + decimal_spec(len as nat) + " incompatible with partitions="@ + decimal_spec(
                partitions as nat,
            ),
            DecodeError::IncompatibleCommitments { len } => "commitments array len="@
                + decimal_spec(len as nat) + " incompatible with commitment len=32"@,
        }
    }

    /// Describes the error for the caller.
    pub fn message(&self) -> (text: String)
        ensures
            text@ == self.message_spec(),
    {
        match self {
            DecodeError::NoProofs => "no proofs in chunked vec".to_owned(),
            DecodeError::NoPartitionsMapping { len } => {
                let mut text = "no PoRepProofPartitions mapping for proof len=".to_owned();
                text.append(decimal_string(*len).as_str());
                text
            },
            DecodeError::UnsupportedPartitions { count } => {
                let mut text = "unsupported number of partitions=".to_owned();
                text.append(decimal_string(*count).as_str());
                text
            },
            DecodeError::IncompatibleProofs { len, partitions } => {
                let mut text = "proofs array len=".to_owned();
                text.append(decimal_string(*len).as_str());
                text.append(" incompatible with partitions=");
                text.append(decimal_string(*partitions as usize).as_str());
                text
            },
            DecodeError::IncompatibleCommitments { len } => {
                let mut text = "commitments array len=".to_owned();
                text.append(decimal_string(*len).as_str());
                text.append(" incompatible with commitment len=32");
                text
            },
        }
    }
}

/// The number of partitions of a replication proof of `len` bytes.
pub open spec fn porep_partitions_spec(len: nat) -> Result<u8, DecodeError> {
    if len % 192 != 0 {
        Err(DecodeError::NoPartitionsMapping { len: len as usize })
    } else if len / 192 == 0 || len / 192 > 255 {
        Err(DecodeError::UnsupportedPartitions { count: (len / 192) as usize })
    } else {
        Ok((len / 192) as u8)
    }
}

/// What decoding flattened proofs of `partitions` partitions each yields:
/// the number of bytes in each proof.
pub open spec fn post_chunk_spec(partitions: u8, len: nat) -> Result<nat, DecodeError> {
    if partitions == 0 {
        Err(DecodeError::UnsupportedPartitions { count: 0 })
    } else if len % (partitions as nat * 192) != 0 {
        Err(DecodeError::IncompatibleProofs { len: len as usize, partitions })
    } else {
        Ok(partitions as nat * 192)
    }
}

/// `chunks` cuts `bytes` into consecutive pieces of `size` bytes, leaving nothing out.
pub open spec fn is_chunking(chunks: Seq<Seq<u8>>, bytes: Seq<u8>, size: nat) -> bool {
    &&& size > 0
    &&& bytes.len() == chunks.len() * size
    &&& forall|i: int|
        0 <= i < chunks.len() ==> #[trigger] chunks[i] == bytes.subrange(
            i * size,
            i * size + size,
        )
}

/// The views of the proofs in `proofs`.
pub open spec fn proofs_view(proofs: Seq<Vec<u8>>) -> Seq<Seq<u8>> {
    Seq::new(proofs.len(), |i: int| proofs[i]@)
}

/// The views of the commitments in `commitments`.
pub open spec fn commitments_view(commitments: Seq<[u8; 32]>) -> Seq<Seq<u8>> {
    Seq::new(commitments.len(), |i: int| commitments[i]@)
}

/// The number of bytes in all of `chunks` together.
pub open spec fn total_len(chunks: Seq<Seq<u8>>) -> nat
    decreases chunks.len(),
{
    if chunks.len() == 0 {
        0
    } else {
        total_len(chunks.drop_last()) + chunks.last().len()
    }
}

/// Copies the challenge seed into the array type the proof library takes.
pub fn into_safe_challenge_seed(challenge_seed: &[u8; 32]) -> (seed: [u8; 32])
    ensures
        seed@ == challenge_seed@,
{
    *challenge_seed
}

/// Takes the bytes of a replication proof out of the caller's buffer.
/// An empty buffer holds no proof.
pub fn try_into_porep_proof_bytes(proof: &[u8]) -> (res: Result<Vec<u8>, DecodeError>)
    ensures
        match res {
            Ok(bytes) => proof@.len() > 0 && bytes@ == proof@,
            Err(e) => proof@.len() == 0 && e == DecodeError::NoProofs,
        },
{
    if proof.len() == 0 {
        Err(DecodeError::NoProofs)
    } else {
        Ok(slice_to_vec(proof))
    }
}

/// Derives the number of partitions from the length of a replication proof.
pub fn porep_proof_partitions_try_from_bytes(proof: &[u8]) -> (res: Result<u8, DecodeError>)
    ensures
        res == porep_partitions_spec(proof@.len()),
{
    let n: usize = proof.len();
    if n % SINGLE_PARTITION_PROOF_LEN != 0 {
        Err(DecodeError::NoPartitionsMapping { len: n })
    } else {
        let partitions: usize = n / SINGLE_PARTITION_PROOF_LEN;
        if partitions == 0 || partitions > MAX_PROOF_PARTITIONS {
            Err(DecodeError::UnsupportedPartitions { count: partitions })
        } else {
            Ok(partitions as u8)
        }
    }
}

/// Cuts `bytes` into consecutive chunks of `size` bytes.
fn into_proof_vecs(size: usize, bytes: &[u8]) -> (chunks: Vec<Vec<u8>>)
    requires
        size > 0,
        bytes@.len() % (size as nat) == 0,
    ensures
        is_chunking(proofs_view(chunks@), bytes@, size as nat),
{
    let n: usize = bytes.len();
    let count: usize = n / size;
    proof {
        vstd::arithmetic::div_mod::lemma_fundamental_div_mod(bytes@.len() as int, size as int);
        assert(bytes@.len() == count * size) by (nonlinear_arith)
            requires
                bytes@.len() as int == size as int * (bytes@.len() as int / size as int) + (
                bytes@.len() as int % size as int),
                bytes@.len() as int % size as int == 0,
                count as int == bytes@.len() as int / size as int,
        ;
    }
    let mut chunks: Vec<Vec<u8>> = Vec::new();
    let mut i: usize = 0;
    while i < count
        invariant
            size > 0,
            i <= count,
            n == bytes@.len(),
            n == count * size,
            chunks@.len() == i,
            forall|k: int|
                0 <= k < i ==> #[trigger] chunks@[k]@ == bytes@.subrange(
                    k * size,
                    k * size + size,
                ),
        decreases count - i,
    {
        proof {
            assert(0 <= i * size && i * size + size <= count * size) by (nonlinear_arith)
                requires
                    0 <= i < count,
                    size > 0,
            ;
        }
        let start: usize = i * size;
        let chunk = slice_to_vec(slice_subrange(bytes, start, start + size));
        chunks.push(chunk);
        i = i + 1;
    }
    proof {
        let views = proofs_view(chunks@);
        assert forall|k: int| 0 <= k < views.len() implies #[trigger] views[k]
            == bytes@.subrange(k * size, k * size + size) by {
            assert(views[k] == chunks@[k]@);
        }
    }
    chunks
}

/// Cuts the flattened proofs of a spacetime proof into one proof per sector, each
/// of `proof_partitions` partitions.
pub fn try_into_post_proofs_bytes(proof_partitions: u8, flattened_proofs: &[u8]) -> (res: Result<
    Vec<Vec<u8>>,
    DecodeError,
>)
    ensures
        match res {
            Ok(proofs) => match post_chunk_spec(proof_partitions, flattened_proofs@.len()) {
                Ok(size) => is_chunking(proofs_view(proofs@), flattened_proofs@, size)
                    && total_len(proofs_view(proofs@)) == flattened_proofs@.len(),
                Err(_) => false,
            },
            Err(e) => post_chunk_spec(proof_partitions, flattened_proofs@.len()) == Err::<
                nat,
                DecodeError,
            >(e),
        },
{
    if proof_partitions == 0 {
        return Err(DecodeError::UnsupportedPartitions { count: 0 });
    }
    let chunk_size: usize = proof_partitions as usize * SINGLE_PARTITION_PROOF_LEN;
    if flattened_proofs.len() % chunk_size != 0 {
        Err(
            DecodeError::IncompatibleProofs {
                len: flattened_proofs.len(),
                partitions: proof_partitions,
            },
        )
    } else {
        let proofs = into_proof_vecs(chunk_size, flattened_proofs);
        proof {
            lemma_chunking_keeps_byte_count(
                proofs_view(proofs@),
                flattened_proofs@,
                chunk_size as nat,
            );
        }
        Ok(proofs)
    }
}

/// Copies the 32 bytes of `bytes` from `start` on into a commitment.
fn commitment_at(bytes: &[u8], start: usize) -> (commitment: [u8; 32])
    requires
        start + 32 <= bytes@.len(),
    ensures
        commitment@ == bytes@.subrange(start as int, start + 32),
{
    let n: usize = bytes.len();
    let mut commitment: [u8; 32] = [0u8;32];
    let mut j: usize = 0;
    while j < COMMITMENT_LEN
        invariant
            j <= 32,
            start + 32 <= bytes@.len(),
            n == bytes@.len(),
            forall|k: int| 0 <= k < j ==> commitment@[k] == bytes@[start + k],
        decreases 32 - j,
    {
        commitment[j] = bytes[start + j];
        j = j + 1;
    }
    assert(commitment@ =~= bytes@.subrange(start as int, start + 32));
    commitment
}

/// Cuts the flattened commitments into commitments of 32 bytes each.
pub fn into_commitments(flattened_comms: &[u8]) -> (res: Result<Vec<[u8; 32]>, DecodeError>)
    ensures
        match res {
            Ok(comms) => is_chunking(commitments_view(comms@), flattened_comms@, 32),
            Err(e) => flattened_comms@.len() % 32 != 0 && e == (DecodeError::IncompatibleCommitments {
                len: flattened_comms@.len() as usize,
            }),
        },
{
    let n: usize = flattened_comms.len();
    if n % COMMITMENT_LEN != 0 {
        return Err(DecodeError::IncompatibleCommitments { len: n });
    }
    let count: usize = n / COMMITMENT_LEN;
    let mut comms: Vec<[u8; 32]> = Vec::new();
    let mut i: usize = 0;
    while i < count
        invariant
            i <= count,
            n == flattened_comms@.len(),
            n == count * 32,
            comms@.len() == i,
            forall|k: int|
                0 <= k < i ==> #[trigger] comms@[k]@ == flattened_comms@.subrange(
                    k * 32,
                    k * 32 + 32,
                ),
        decreases count - i,
    {
        let commitment = commitment_at(flattened_comms, i * COMMITMENT_LEN);
        comms.push(commitment);
        i = i + 1;
    }
    proof {
        let views = commitments_view(comms@);
        assert forall|k: int| 0 <= k < views.len() implies #[trigger] views[k]
            == flattened_comms@.subrange(k * 32, k * 32 + 32) by {
            assert(views[k] == comms@[k]@);
        }
    }
    Ok(comms)
}

/// A chunking whose chunks have `size` bytes each holds `size` bytes per chunk in all.
proof fn lemma_total_len_uniform(chunks: Seq<Seq<u8>>, size: nat)
    requires
        forall|i: int| 0 <= i < chunks.len() ==> (#[trigger] chunks[i]).len() == size,
    ensures
        total_len(chunks) == chunks.len() * size,
    decreases chunks.len(),
{
    if chunks.len() > 0 {
        let front = chunks.drop_last();
        assert forall|i: int| 0 <= i < front.len() implies (#[trigger] front[i]).len() == size by {
            assert(front[i] == chunks[i]);
        }
        lemma_total_len_uniform(front, size);
        assert(chunks.last() == chunks[chunks.len() - 1]);
        assert(total_len(chunks) == chunks.len() * size) by (nonlinear_arith)
            requires
                total_len(chunks) == total_len(front) + size,
                total_len(front) == front.len() * size,
                front.len() == chunks.len() - 1,
        ;
    }
}

/// Decoding neither drops nor adds a byte: the chunks of a chunking hold as many
/// bytes as the buffer that was cut.
pub proof fn lemma_chunking_keeps_byte_count(chunks: Seq<Seq<u8>>, bytes: Seq<u8>, size: nat)
    requires
        is_chunking(chunks, bytes, size),
    ensures
        total_len(chunks) == bytes.len(),
{
    assert forall|i: int| 0 <= i < chunks.len() implies (#[trigger] chunks[i]).len() == size by {
        assert(0 <= i * size && i * size + size <= chunks.len() * size) by (nonlinear_arith)
            requires
                0 <= i < chunks.len(),
        ;
        assert(chunks[i] == bytes.subrange(i * size, i * size + size));
    }
    lemma_total_len_uniform(chunks, size);
}

/// A replication proof decodes if and only if its length is a multiple of the
/// single-partition proof length with a supported number of partitions, and the
/// number of partitions is then that multiple.
pub proof fn lemma_porep_partitions_exact(len: nat, partitions: u8)
    ensures
        porep_partitions_spec(len) == Ok::<u8, DecodeError>(partitions) <==> (partitions >= 1 && len
            == partitions as nat * 192),
{
}

/// Flattened spacetime proofs decode if and only if the number of partitions is
/// not zero and the length is a whole number of proofs of that many partitions.
pub proof fn lemma_post_proofs_exact(partitions: u8, len: nat)
    ensures
        post_chunk_spec(partitions, len) is Ok <==> (partitions >= 1 && len == (len / (
        partitions as nat * 192)) * (partitions as nat * 192)),
{
    let size = partitions as nat * 192;
    if partitions >= 1 {
        vstd::arithmetic::div_mod::lemma_fundamental_div_mod(len as int, size as int);
        assert(len == (len / size) * size <==> len % size == 0) by (nonlinear_arith)
            requires
                len as int == size as int * (len as int / size as int) + (len as int
                    % size as int),
                size > 0,
        ;
    }
}

/// Any whole number of proofs of a supported number of partitions decodes.
pub proof fn lemma_post_proofs_multiple_decodes(partitions: u8, count: nat)
    requires
        partitions >= 1,
    ensures
        post_chunk_spec(partitions, count * (partitions as nat * 192)) == Ok::<nat, DecodeError>(
            partitions as nat * 192,
        ),
{
    vstd::arithmetic::div_mod::lemma_mod_multiples_basic(
        count as int,
        partitions as int * 192,
    );
}

} // verus!
