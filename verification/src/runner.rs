use vstd::prelude::*;
use vstd::string::StringSliceAdditionalSpecFns;
use std::time::Instant;
use crate::encrypt::{cbc_encrypt, gcm_seal, Sealer};
use crate::report::{
    decimal_text, is_one_line, label_text, lemma_line_holds_its_numbers, lemma_line_is_one_line,
    line_text,
};
use crate::error::BenchError;
use crate::sizes::{paddable, padded_capacity, padded_len, sealable, sealed_len};

verus! {

/// The three configurations that are timed.
#[derive(Debug, Clone, Copy, PartialEq, Eq, Structural)]
pub enum RunKind {
    /// CBC with padding, a fresh encryptor for every message.
    Cbc,
    /// GCM, a fresh nonce and cipher for every message.
    Gcm,
    /// GCM, one nonce and one cipher for all messages.
    GcmReuse,
}

/// What one run measured.
#[derive(Debug, Clone, Copy, PartialEq, Eq, Structural)]
pub struct RunReport {
    pub kind: RunKind,
    /// How often the message was encrypted.
    pub iterations: u32,
    /// Wall-clock time of the run, in whole milliseconds.
    pub elapsed_millis: u128,
    /// Sum of the lengths of all ciphertexts.
    pub total_len: u128,
}

/// The bytes of a message: its text in UTF-8.
pub open spec fn message_bytes(data: Seq<char>) -> Seq<u8> {
    vstd::utf8::encode_utf8(data)
}

/// What a CBC run over a message of `len` bytes with a buffer of `capacity`
/// bytes comes to: the summed ciphertext lengths, or `BufferTooSmall` where the
/// first encryption finds the buffer too short. Without an encryption the
/// buffer is not looked at.
pub open spec fn cbc_outcome(len: nat, capacity: nat, iterations: nat) -> Result<nat, BenchError> {
    if iterations == 0 {
        Ok(0)
    } else if padded_len(len) > capacity {
        Err(BenchError::BufferTooSmall)
    } else {
        Ok(iterations * padded_len(len))
    }
}

/// The buffer that `aes_cbc` gives a message of `len` bytes: as long as the
/// padded message, or empty where no buffer can be allocated that long.
pub open spec fn fitted_capacity(len: nat) -> nat {
    if paddable(len) {
        padded_len(len)
    } else {
        0
    }
}

/// What a GCM run over a message of `len` bytes comes to, with a cipher per
/// message or with one for all: the summed lengths of the sealed messages, or
/// `MessageTooLong` where the first encryption finds the message too long.
/// Without an encryption the message is not looked at.
pub open spec fn gcm_outcome(len: nat, iterations: nat) -> Result<nat, BenchError> {
    if iterations == 0 {
        Ok(0)
    } else if !sealable(len) {
        Err(BenchError::MessageTooLong)
    } else {
        Ok(iterations * sealed_len(len))
    }
}

/// Whether `r` is what a run of `kind` with `iterations` encryptions may
/// return, where `outcome` is what the run comes to. The elapsed time is left
/// open: it is read from the clock.
pub open spec fn reports(r: Result<RunReport, BenchError>, kind: RunKind, iterations: u32, outcome: Result<nat, BenchError>) -> bool {
    match r {
        Ok(report) => report.kind == kind && report.iterations == iterations && outcome == Ok::<nat, BenchError>(report.total_len as nat),
        Err(e) => outcome == Err::<nat, BenchError>(e),
    }
}

/// Whether `report` is written as one line that names `kind`, holds
/// `iterations` in decimal notation behind the name, and ends with `total_len`.
pub open spec fn writes_one_line(report: RunReport, kind: RunKind, iterations: u32, total_len: nat) -> bool {
    let line = line_text(report.kind, report.iterations as nat, report.elapsed_millis as nat, report.total_len as nat);
    let at = (label_text(kind) + " run "@).len() as int;
    let count = decimal_text(iterations as nat);
    let sum = decimal_text(total_len);
    &&& is_one_line(line)
    &&& line == line_text(kind, iterations as nat, report.elapsed_millis as nat, total_len)
    &&& at + count.len() <= line.len() - sum.len()
    &&& line.subrange(0, label_text(kind).len() as int) == label_text(kind)
    &&& line.subrange(at, at + count.len()) == count
    &&& line.subrange(line.len() - sum.len(), line.len() as int) == sum
}

/// What a run returns is settled by its inputs but for the elapsed time: two
/// returns of one run on the same inputs agree on success, on the fault, on
/// the configuration, on the number of encryptions and on the summed lengths.
pub proof fn lemma_run_is_repeatable(
    first: Result<RunReport, BenchError>,
    second: Result<RunReport, BenchError>,
    kind: RunKind,
    iterations: u32,
    outcome: Result<nat, BenchError>,
)
    requires
        reports(first, kind, iterations, outcome),
        reports(second, kind, iterations, outcome),
    ensures
        first is Ok <==> second is Ok,
        first is Err ==> first == second,
        first is Ok ==> first->Ok_0.kind == second->Ok_0.kind && first->Ok_0.iterations
            == second->Ok_0.iterations && first->Ok_0.total_len == second->Ok_0.total_len,
{
}

/// With a buffer that holds the padded message, a CBC run sums up to the
/// number of encryptions times the padded length of the message. The buffer
/// fitted to the message is such a buffer wherever one can be allocated.
pub proof fn lemma_cbc_total(len: nat, capacity: nat, iterations: nat)
    requires
        padded_len(len) <= capacity,
    ensures
        cbc_outcome(len, capacity, iterations) == Ok::<nat, BenchError>(iterations * padded_len(len)),
        paddable(len) ==> cbc_outcome(len, fitted_capacity(len), iterations) == Ok::<nat, BenchError>(
            iterations * padded_len(len),
        ),
{
    assert(0 * padded_len(len) == 0) by (nonlinear_arith);
}

/// On a message that can be sealed, either GCM run sums up to the number of
/// encryptions times the length of the message and its tag.
pub proof fn lemma_gcm_total(len: nat, iterations: nat)
    requires
        sealable(len),
    ensures
        gcm_outcome(len, iterations) == Ok::<nat, BenchError>(iterations * (len + 16)),
{
    assert(0 * sealed_len(len) == 0) by (nonlinear_arith);
}

/// The two GCM runs agree on the same inputs: the run with a cipher per
/// message and the run with one cipher for all end alike, and where they give
/// a report they have summed up to the same length.
pub proof fn lemma_gcm_runs_agree(
    fresh: Result<RunReport, BenchError>,
    reused: Result<RunReport, BenchError>,
    iterations: u32,
    len: nat,
)
    requires
        reports(fresh, RunKind::Gcm, iterations, gcm_outcome(len, iterations as nat)),
        reports(reused, RunKind::GcmReuse, iterations, gcm_outcome(len, iterations as nat)),
    ensures
        fresh is Ok <==> reused is Ok,
        fresh is Err ==> fresh->Err_0 == reused->Err_0,
        fresh is Ok ==> fresh->Ok_0.total_len == reused->Ok_0.total_len && fresh->Ok_0.iterations
            == reused->Ok_0.iterations,
{
}

/// A CBC run into a buffer that holds the padded message gives a report, and
/// that report is written as one line: the run's name, the number of
/// encryptions, the seconds, and the number of encryptions times the padded
/// length.
pub proof fn lemma_cbc_run_writes_one_line(r: Result<RunReport, BenchError>, iterations: u32, len: nat, capacity: nat)
    requires
        padded_len(len) <= capacity,
        reports(r, RunKind::Cbc, iterations, cbc_outcome(len, capacity, iterations as nat)),
    ensures
        r is Ok,
        writes_one_line(r->Ok_0, RunKind::Cbc, iterations, (iterations * padded_len(len)) as nat),
{
    lemma_cbc_total(len, capacity, iterations as nat);
    let report = r->Ok_0;
    let line = line_text(report.kind, report.iterations as nat, report.elapsed_millis as nat, report.total_len as nat);
    assert(report.total_len as nat == iterations * padded_len(len));
    lemma_line_is_one_line(report.kind, report.iterations as nat, report.elapsed_millis as nat, report.total_len as nat);
    lemma_line_holds_its_numbers(report.kind, report.iterations as nat, report.elapsed_millis as nat, report.total_len as nat);
    assert(line.subrange(0, label_text(report.kind).len() as int) =~= label_text(report.kind));
}

/// A GCM run of either kind on a message that can be sealed gives a report,
/// and that report is written as one line: the run's name, the number of
/// encryptions, the seconds, and the number of encryptions times the length of
/// the message and its tag.
pub proof fn lemma_gcm_run_writes_one_line(r: Result<RunReport, BenchError>, kind: RunKind, iterations: u32, len: nat)
    requires
        kind != RunKind::Cbc,
        sealable(len),
        reports(r, kind, iterations, gcm_outcome(len, iterations as nat)),
    ensures
        r is Ok,
        writes_one_line(r->Ok_0, kind, iterations, (iterations * sealed_len(len)) as nat),
{
    lemma_gcm_total(len, iterations as nat);
    let report = r->Ok_0;
    let line = line_text(report.kind, report.iterations as nat, report.elapsed_millis as nat, report.total_len as nat);
    assert(report.total_len as nat == iterations * sealed_len(len));
    lemma_line_is_one_line(report.kind, report.iterations as nat, report.elapsed_millis as nat, report.total_len as nat);
    lemma_line_holds_its_numbers(report.kind, report.iterations as nat, report.elapsed_millis as nat, report.total_len as nat);
    assert(line.subrange(0, label_text(report.kind).len() as int) =~= label_text(report.kind));
}

/// A sum of `done` lengths takes one more, and stays within `u128`.
proof fn lemma_total_grows(done: nat, each: nat)
    requires
        done < 0x1_0000_0000,
        each <= usize::MAX,
    ensures
        done * each + each == (done + 1) * each,
        (done + 1) * each <= u128::MAX,
{
    assert(done * each + each == (done + 1) * each) by (nonlinear_arith);
    assert((done + 1) * each <= 0x1_0000_0000 * 0x1_0000_0000_0000_0000) by (nonlinear_arith)
        requires
            done + 1 <= 0x1_0000_0000,
            each <= 0x1_0000_0000_0000_0000,
    ;
}

/// Times `iterations` CBC encryptions of `data` under `key` and `iv`, each
/// with an encryptor of its own, into one buffer of `capacity` bytes.
///
/// The key and the initialisation vector are 16 bytes long, and the buffer
/// is one that can be allocated: a caller tests this before the call.
pub fn aes_cbc_with_capacity(data: String, key: Vec<u8>, iv: Vec<u8>, iterations: u32, capacity: usize) -> (r: Result<RunReport, BenchError>)
    requires
        key@.len() == 16,
        iv@.len() == 16,
        capacity <= isize::MAX,
    ensures
        reports(
            r,
            RunKind::Cbc,
            iterations,
            cbc_outcome(message_bytes(data@).len(), capacity as nat, iterations as nat),
        ),
{
    let start_time = Instant::now();
    let data_bytes = data.as_str().as_bytes();
    let mut buf: Vec<u8> = vec![0u8; capacity];
    let mut total_len: u128 = 0;
    assert(0 * padded_len(data_bytes@.len()) == 0) by (nonlinear_arith);
    for done in 0..iterations
        invariant
            data_bytes@ == message_bytes(data@),
            key@.len() == 16,
            iv@.len() == 16,
            buf@.len() == capacity,
            total_len == done * padded_len(data_bytes@.len()),
            done > 0 ==> padded_len(data_bytes@.len()) <= capacity,
    {
        let ct_len = match cbc_encrypt(data_bytes, key.as_slice(), iv.as_slice(), &mut buf) {
            Ok(ct_len) => ct_len,
            Err(fault) => {
                return Err(fault);
            },
        };
        proof {
            lemma_total_grows(done as nat, padded_len(data_bytes@.len()));
        }
        total_len = total_len + ct_len as u128;
    }
    let elapsed_millis = start_time.elapsed().as_millis();
    Ok(RunReport { kind: RunKind::Cbc, iterations, elapsed_millis, total_len })
}

/// Times `iterations` CBC encryptions of `data` under `key` and `iv`, each
/// with an encryptor of its own, into one buffer that is fitted to the message.
///
/// The key and the initialisation vector are 16 bytes long: a caller tests
/// this before the call.
pub fn aes_cbc(data: String, key: Vec<u8>, iv: Vec<u8>, iterations: u32) -> (r: Result<RunReport, BenchError>)
    requires
        key@.len() == 16,
        iv@.len() == 16,
    ensures
        reports(
            r,
            RunKind::Cbc,
            iterations,
            cbc_outcome(
                message_bytes(data@).len(),
                fitted_capacity(message_bytes(data@).len()),
                iterations as nat,
            ),
        ),
{
    let capacity = match padded_capacity(data.as_str().as_bytes().len()) {
        Some(capacity) => capacity,
        None => 0,
    };
    aes_cbc_with_capacity(data, key, iv, iterations, capacity)
}

/// Times `iterations` GCM encryptions of `data` under `key` and the nonce
/// `iv`, each with a nonce and a cipher of its own.
///
/// The key and the nonce are 16 bytes long: a caller tests this before the
/// call, and so before the clock is read.
///
/// The reports write the mode as GSM, and the two GCM runs are named as the
/// reports write it.
pub fn aes_gsm(data: String, key: Vec<u8>, iv: Vec<u8>, iterations: u32) -> (r: Result<RunReport, BenchError>)
    requires
        key@.len() == 16,
        iv@.len() == 16,
    ensures
        reports(r, RunKind::Gcm, iterations, gcm_outcome(message_bytes(data@).len(), iterations as nat)),
{
    let start_time = Instant::now();
    let data_bytes = data.as_str().as_bytes();
    let mut total_len: u128 = 0;
    assert(0 * sealed_len(data_bytes@.len()) == 0) by (nonlinear_arith);
    for done in 0..iterations
        invariant
            data_bytes@ == message_bytes(data@),
            key@.len() == 16,
            iv@.len() == 16,
            total_len == done * sealed_len(data_bytes@.len()),
            done > 0 ==> sealable(data_bytes@.len()),
    {
        let ct = match gcm_seal(data_bytes, key.as_slice(), iv.as_slice()) {
            Ok(ct) => ct,
            Err(fault) => {
                return Err(fault);
            },
        };
        proof {
            lemma_total_grows(done as nat, sealed_len(data_bytes@.len()));
        }
        total_len = total_len + ct.len() as u128;
    }
    let elapsed_millis = start_time.elapsed().as_millis();
    Ok(RunReport { kind: RunKind::Gcm, iterations, elapsed_millis, total_len })
}

/// Times `iterations` GCM encryptions of `data` under `key` and the nonce
/// `iv`, all with one nonce and one cipher, which are made before the first.
///
/// The key and the nonce are 16 bytes long: a caller tests this before the
/// call, and so before the clock is read.
///
/// To seal more than one message under one nonce and key voids what the mode
/// promises. This run measures the cost of an encryption without its setup,
/// and its ciphertexts go nowhere.
pub fn aes_gsm_reuse(data: String, key: Vec<u8>, iv: Vec<u8>, iterations: u32) -> (r: Result<RunReport, BenchError>)
    requires
        key@.len() == 16,
        iv@.len() == 16,
    ensures
        reports(r, RunKind::GcmReuse, iterations, gcm_outcome(message_bytes(data@).len(), iterations as nat)),
{
    let start_time = Instant::now();
    let data_bytes = data.as_str().as_bytes();
    let mut total_len: u128 = 0;
    let encryptor = match Sealer::new(key.as_slice(), iv.as_slice()) {
        Ok(sealer) => sealer,
        Err(fault) => {
            return Err(fault);
        },
    };
    assert(0 * sealed_len(data_bytes@.len()) == 0) by (nonlinear_arith);
    for done in 0..iterations
        invariant
            data_bytes@ == message_bytes(data@),
            total_len == done * sealed_len(data_bytes@.len()),
            done > 0 ==> sealable(data_bytes@.len()),
    {
        let ct = match encryptor.seal(data_bytes) {
            Ok(ct) => ct,
            Err(fault) => {
                return Err(fault);
            },
        };
        proof {
            lemma_total_grows(done as nat, sealed_len(data_bytes@.len()));
        }
        total_len = total_len + ct.len() as u128;
    }
    let elapsed_millis = start_time.elapsed().as_millis();
    Ok(RunReport { kind: RunKind::GcmReuse, iterations, elapsed_millis, total_len })
}

} // verus!
