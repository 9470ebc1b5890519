//! Units of search work and the results of evaluating them.
//!
//! A [`Work`] is an immutable description of a search: an 80-byte header whose
//! last four bytes are overwritten per candidate, a 32-byte target that a
//! digest is compared against, a difficulty weight and a generation counter
//! (`version`) used for staleness checks.  A [`MiningResult`] records one
//! candidate that satisfied the target.

use vstd::prelude::*;

use sha2::Digest;

verus! {

/// Number of bytes in a work header.
pub const HEADER_LEN: usize = 80;

/// Number of bytes in a target and in a digest.
pub const TARGET_LEN: usize = 32;

/// Mathematical value of one unit of work.
pub ghost struct WorkView {
    pub id: Seq<char>,
    pub header: Seq<u8>,
    pub target: Seq<u8>,
    pub difficulty: u64,
    pub version: u64,
}

/// One unit of search work.  Shared read-only between workers; a worker never
/// mutates a `Work`, it derives trial inputs into private copies.
#[derive(Debug)]
pub struct Work {
    /// Identifier of the job this work belongs to.
    pub id: String,
    /// Block header; candidates overwrite its last four bytes in a copy.
    pub header: Vec<u8>,
    /// Target the digest of a candidate is compared against.
    pub target: Vec<u8>,
    /// Difficulty weight of the job.
    pub difficulty: u64,
    /// Generation counter assigned around enqueue time; stale work is
    /// recognised by comparing it against a queue's current version.
    pub version: u64,
}

impl View for Work {
    type V = WorkView;

    open spec fn view(&self) -> WorkView {
        WorkView {
            id: self.id@,
            header: self.header@,
            target: self.target@,
            difficulty: self.difficulty,
            version: self.version,
        }
    }
}

impl Work {
    /// A well-formed work has a full-size header and target.
    pub open spec fn wf(&self) -> bool {
        self.header@.len() == HEADER_LEN && self.target@.len() == TARGET_LEN
    }

    /// Creates a new unit of work with generation counter zero.
    pub fn new(id: String, target: Vec<u8>, header: Vec<u8>, difficulty: u64) -> (w: Work)
        requires
            header@.len() == HEADER_LEN,
            target@.len() == TARGET_LEN,
        ensures
            w.wf(),
            w@ == (WorkView {
                id: id@,
                header: header@,
                target: target@,
                difficulty: difficulty,
                version: 0,
            }),
    {
        Work { id, header, target, difficulty, version: 0 }
    }

    /// Returns the same work stamped with the given generation counter.
    pub fn with_version(self, version: u64) -> (w: Work)
        ensures
            w@ == (WorkView { version: version, ..self@ }),
            self.wf() ==> w.wf(),
    {
        Work { version, ..self }
    }
}

/// Mathematical value of a mining result.
pub ghost struct ResultView {
    pub work_id: Seq<char>,
    pub device_id: u32,
    pub nonce: u32,
    pub hash: Seq<u8>,
    pub meets_target: bool,
}

/// Outcome of one satisfying candidate evaluation.  Immutable once created.
#[derive(Debug)]
pub struct MiningResult {
    /// Identifier of the job the candidate belonged to.
    pub work_id: String,
    /// Identifier of the worker that found the candidate.
    pub device_id: u32,
    /// The discovered candidate parameter.
    pub nonce: u32,
    /// Digest of the trial input.
    pub hash: Vec<u8>,
    /// Whether the digest satisfied the target when the result was created.
    pub meets_target: bool,
}

impl View for MiningResult {
    type V = ResultView;

    open spec fn view(&self) -> ResultView {
        ResultView {
            work_id: self.work_id@,
            device_id: self.device_id,
            nonce: self.nonce,
            hash: self.hash@,
            meets_target: self.meets_target,
        }
    }
}

impl MiningResult {
    /// Creates a result for one evaluated candidate.
    pub fn new(work_id: String, device_id: u32, nonce: u32, hash: Vec<u8>, meets_target: bool)
        -> (r: MiningResult)
        ensures
            r@ == (ResultView {
                work_id: work_id@,
                device_id: device_id,
                nonce: nonce,
                hash: hash@,
                meets_target: meets_target,
            }),
    {
        MiningResult { work_id, device_id, nonce, hash, meets_target }
    }
}

/// What the SHA-256 compression of a byte sequence is.  The digest depends on
/// the bytes alone; nothing further is assumed of it.
pub uninterp spec fn sha256_of(data: Seq<u8>) -> Seq<u8>;

/// Relies on `sha2::Sha256::digest`: the 32-byte SHA-256 digest of the input,
/// a function of the input bytes alone.
#[verifier::external_body]
fn sha256(data: &[u8]) -> (r: Vec<u8>)
    ensures
        r@ == sha256_of(data@),
        r@.len() == 32,
{
    sha2::Sha256::digest(data).to_vec()
}

/// The double SHA-256 digest used to score a candidate.
pub open spec fn double_sha256_of(data: Seq<u8>) -> Seq<u8> {
    sha256_of(sha256_of(data))
}

/// Computes the double SHA-256 digest of the input.
pub fn double_sha256(data: &Vec<u8>) -> (r: Vec<u8>)
    ensures
        r@ == double_sha256_of(data@),
        r@.len() == 32,
{
    let first: Vec<u8> = sha256(data.as_slice());
    sha256(first.as_slice())
}

/// Whether a digest satisfies a target: the digest, read as a big-endian
/// number, must not exceed the target.  Compared byte by byte from the front.
pub open spec fn meets_target_spec(hash: Seq<u8>, target: Seq<u8>) -> bool
    decreases hash.len(),
{
    if hash.len() == 0 || target.len() == 0 {
        true
    } else if hash[0] < target[0] {
        true
    } else if hash[0] > target[0] {
        false
    } else {
        meets_target_spec(hash.drop_first(), target.drop_first())
    }
}

/// Decides whether a digest satisfies a target.
pub fn meets_target(hash: &Vec<u8>, target: &Vec<u8>) -> (r: bool)
    ensures
        r == meets_target_spec(hash@, target@),
{
    let mut i: usize = 0;
    let n: usize = if hash.len() < target.len() { hash.len() } else { target.len() };
    proof {
        assert(hash@.skip(0) =~= hash@);
        assert(target@.skip(0) =~= target@);
    }
    loop
        invariant
            i <= n,
            n == vstd::math::min(hash@.len() as int, target@.len() as int),
            forall|k: int| 0 <= k < i ==> hash@[k] == target@[k],
            meets_target_spec(hash@, target@) == meets_target_spec(
                hash@.skip(i as int),
                target@.skip(i as int),
            ),
        decreases n - i,
    {
        if i >= n {
            proof {
                assert(hash@.skip(i as int).len() == 0 || target@.skip(i as int).len() == 0);
            }
            return true;
        }
        let h: u8 = hash[i];
        let t: u8 = target[i];
        if h < t {
            proof {
                assert(hash@.skip(i as int)[0] == h);
                assert(target@.skip(i as int)[0] == t);
            }
            return true;
        }
        if h > t {
            proof {
                assert(hash@.skip(i as int)[0] == h);
                assert(target@.skip(i as int)[0] == t);
            }
            return false;
        }
        proof {
            assert(hash@.skip(i as int)[0] == h);
            assert(target@.skip(i as int)[0] == t);
            assert(hash@.skip(i as int).drop_first() =~= hash@.skip(i + 1));
            assert(target@.skip(i as int).drop_first() =~= target@.skip(i + 1));
        }
        i = i + 1;
    }
}

} // verus!
