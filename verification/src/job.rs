//! One job: a direction, a password and a buffer go in; the transformed
//! buffer and a result message come out. The runner keeps the caller-visible
//! job state — a processing flag and the last delivered message — so that a
//! caller polling from its own loop never blocks and observes each result
//! exactly once. The blocking work itself (file reading and writing, the
//! worker thread, the channel) belongs to the caller.

use vstd::prelude::*;
use vstd::string::StringExecFns;
use crate::cipher::{Crypto, CryptoError, MSG_LIMIT, TAG_LEN, xchacha_open, xchacha_seal};
use crate::keys::{derive_key_nonce, derived_key, derived_nonce};

verus! {

/// The direction of one job, chosen once and immutable for that job.
#[derive(Clone, Copy, Debug, PartialEq, Eq, Structural)]
pub enum Direction {
    Encrypt,
    Decrypt,
}

impl Default for Direction {
    /// Encryption is the direction a fresh job offers.
    fn default() -> (r: Self)
        ensures
            r == Direction::Encrypt,
    {
        Direction::Encrypt
    }
}

/// The in-memory work of one job: derive the key and nonce from the password,
/// then run the cipher over the whole buffer in the job's direction. The key
/// material is recomputed here on every call and never kept.
pub fn run_cipher(direction: Direction, data: &Vec<u8>, password: &[u8]) -> (r: Result<
    Vec<u8>,
    CryptoError,
>)
    ensures
        match direction {
            Direction::Encrypt => {
                &&& (r is Ok <==> data@.len() <= MSG_LIMIT)
                &&& (r matches Ok(c) ==> c@ == xchacha_seal(
                    derived_key(password@),
                    derived_nonce(password@),
                    data@,
                ))
                &&& (r matches Ok(c) ==> c@.len() == data@.len() + TAG_LEN)
                &&& (r matches Ok(c) ==> xchacha_open(
                    derived_key(password@),
                    derived_nonce(password@),
                    c@,
                ) == Some(data@))
                &&& (r matches Err(e) ==> e == CryptoError::TooLong)
            },
            Direction::Decrypt => {
                &&& (r is Ok <==> data@.len() <= MSG_LIMIT + TAG_LEN && xchacha_open(
                    derived_key(password@),
                    derived_nonce(password@),
                    data@,
                ) is Some)
                &&& (r matches Ok(p) ==> Some(p@) == xchacha_open(
                    derived_key(password@),
                    derived_nonce(password@),
                    data@,
                ))
                &&& (r matches Err(e) ==> e == (if data@.len() > MSG_LIMIT + TAG_LEN {
                    CryptoError::TooLong
                } else {
                    CryptoError::AuthenticationFailed
                }))
            },
        },
{
    let (key, nonce) = derive_key_nonce(password);
    match direction {
        Direction::Encrypt => Crypto::encrypt(data, &key, &nonce),
        Direction::Decrypt => Crypto::decrypt(data, &key, &nonce),
    }
}

/// Round trip: for every buffer within the cipher's one-message limit and
/// every password, encrypting and then decrypting with the same password
/// returns the original bytes exactly.
pub fn round_trip(data: &Vec<u8>, password: &[u8]) -> (r: Result<Vec<u8>, CryptoError>)
    requires
        data@.len() <= MSG_LIMIT,
    ensures
        r matches Ok(p) && p@ == data@,
{
    let encrypted = run_cipher(Direction::Encrypt, data, password)?;
    run_cipher(Direction::Decrypt, &encrypted, password)
}

/// The degenerate case of wrong-password detection: two passwords that derive
/// identical key material — for instance one being the other plus trailing
/// zero bytes — are interchangeable, so decrypting with the second returns
/// what was encrypted with the first. Only passwords whose derived key or
/// nonce differ can be told apart by the cipher.
pub fn round_trip_across_equivalent_passwords(data: &Vec<u8>, w1: &[u8], w2: &[u8]) -> (r: Result<
    Vec<u8>,
    CryptoError,
>)
    requires
        data@.len() <= MSG_LIMIT,
        derived_key(w1@) == derived_key(w2@),
        derived_nonce(w1@) == derived_nonce(w2@),
    ensures
        r matches Ok(p) && p@ == data@,
{
    let encrypted = run_cipher(Direction::Encrypt, data, w1)?;
    run_cipher(Direction::Decrypt, &encrypted, w2)
}

/// The readable text for an elapsed time of this many nanoseconds: a function
/// of the duration alone.
pub uninterp spec fn duration_text(elapsed_nanos: u64) -> Seq<char>;

/// Relies on human_duration::human_duration: the text depends on the
/// duration alone — seconds and milliseconds — never on the clock or the
/// machine.
#[verifier::external_body]
fn format_elapsed(elapsed_nanos: u64) -> (r: String)
    ensures
        r@ == duration_text(elapsed_nanos),
{
    human_duration::human_duration(&std::time::Duration::from_nanos(elapsed_nanos))
}

/// The success text of a finished job: a fixed prefix for the direction,
/// then the elapsed time in readable form.
pub open spec fn spec_success_message(direction: Direction, elapsed_nanos: u64) -> Seq<char> {
    match direction {
        Direction::Encrypt => "Enkripsi berhasil dalam waktu "@ + duration_text(elapsed_nanos),
        Direction::Decrypt => "Dekripsi berhasil dalam waktu "@ + duration_text(elapsed_nanos),
    }
}

/// The failure text of a job: fixed per direction, never the underlying
/// error detail — failures are collapsed at this boundary.
pub open spec fn spec_failure_message(direction: Direction) -> Seq<char> {
    match direction {
        Direction::Encrypt => "Enkripsi gagal!"@,
        Direction::Decrypt => "Dekripsi gagal!"@,
    }
}

/// The message delivered for a job that succeeded after `elapsed_nanos`.
pub fn success_message(direction: Direction, elapsed_nanos: u64) -> (r: String)
    ensures
        r@ == spec_success_message(direction, elapsed_nanos),
{
    let mut s: String = match direction {
        Direction::Encrypt => "Enkripsi berhasil dalam waktu ".to_owned(),
        Direction::Decrypt => "Dekripsi berhasil dalam waktu ".to_owned(),
    };
    let t = format_elapsed(elapsed_nanos);
    s.append(t.as_str());
    s
}

/// The message delivered for a job that failed, whatever the cause.
pub fn failure_message(direction: Direction) -> (r: String)
    ensures
        r@ == spec_failure_message(direction),
{
    match direction {
        Direction::Encrypt => "Enkripsi gagal!".to_owned(),
        Direction::Decrypt => "Dekripsi gagal!".to_owned(),
    }
}

/// Whether a job is in flight.
#[derive(Clone, Copy, Debug, PartialEq, Eq, Structural)]
pub enum JobState {
    Idle,
    Processing,
}

/// The caller-visible state of the async job runner: whether a job is in
/// flight, and the message of the last delivered result. The caller submits
/// a job, runs the worker itself, and feeds each received completion event
/// to `poll`; the runner guards against a second submit while one job is
/// outstanding.
pub struct JobRunner {
    state: JobState,
    message: Option<String>,
}

/// How one submit changes the runner: the job is admitted exactly when the
/// runner was idle; the runner is processing afterwards either way; the last
/// message is untouched.
pub open spec fn submit_transition(pre: JobRunner, post: JobRunner, admitted: bool) -> bool {
    &&& admitted == !pre.is_processing()
    &&& post.is_processing()
    &&& post.spec_message() == pre.spec_message()
}

/// How one poll changes the runner: with no event, nothing changes and the
/// caller keeps waiting; a delivered completion event ends processing and
/// becomes the latest message.
pub open spec fn poll_transition(pre: JobRunner, post: JobRunner, event: Option<Seq<char>>) -> bool {
    match event {
        None => post.is_processing() == pre.is_processing() && post.spec_message()
            == pre.spec_message(),
        Some(m) => !post.is_processing() && post.spec_message() == Some(m),
    }
}

impl JobRunner {
    /// Whether a job is currently in flight.
    pub closed spec fn is_processing(self) -> bool {
        self.state == JobState::Processing
    }

    /// The text of the last delivered job result, if any was delivered yet.
    pub closed spec fn spec_message(self) -> Option<Seq<char>> {
        match self.message {
            Some(m) => Some(m@),
            None => None,
        }
    }

    /// A fresh runner: idle, nothing delivered yet.
    pub fn new() -> (r: JobRunner)
        ensures
            !r.is_processing(),
            r.spec_message() is None,
    {
        JobRunner { state: JobState::Idle, message: None }
    }

    /// Admits a job only when idle, and marks the runner processing; a submit
    /// while a job is outstanding is rejected. The caller starts the worker
    /// only when admitted.
    pub fn submit(&mut self) -> (admitted: bool)
        ensures
            submit_transition(*old(self), *final(self), admitted),
    {
        let admitted = match self.state {
            JobState::Idle => true,
            JobState::Processing => false,
        };
        self.state = JobState::Processing;
        admitted
    }

    /// Takes what one non-blocking receive on the completion channel gave:
    /// nothing, and the runner is unchanged; or the result message, which
    /// ends processing and is recorded as the latest message.
    pub fn poll(&mut self, event: Option<String>)
        ensures
            poll_transition(
                *old(self),
                *final(self),
                match event {
                    Some(m) => Some(m@),
                    None => None,
                },
            ),
    {
        match event {
            Some(m) => {
                self.state = JobState::Idle;
                self.message = Some(m);
            },
            None => {},
        }
    }

    /// Whether a job is in flight, for a progress indicator.
    pub fn processing(&self) -> (r: bool)
        ensures
            r == self.is_processing(),
    {
        match self.state {
            JobState::Processing => true,
            JobState::Idle => false,
        }
    }

    /// The line a caller displays on each tick: the busy text while a job is
    /// in flight, else the latest result under an output label — an empty
    /// result before any job has finished.
    pub fn status_line(&self) -> (r: String)
        ensures
            self.is_processing() ==> r@ == "Proses sedang berlangsung.."@,
            !self.is_processing() ==> r@ == "Output: "@ + match self.spec_message() {
                Some(m) => m,
                None => Seq::empty(),
            },
    {
        match self.state {
            JobState::Processing => "Proses sedang berlangsung..".to_owned(),
            JobState::Idle => {
                let mut line = "Output: ".to_owned();
                match &self.message {
                    Some(m) => {
                        line.append(m.as_str());
                    },
                    None => {
                        proof {
                            assert(line@ =~= "Output: "@ + Seq::<char>::empty());
                        }
                    },
                }
                line
            },
        }
    }

    /// The last delivered message, cloned for display.
    pub fn message(&self) -> (r: Option<String>)
        ensures
            match r {
                Some(m) => self.spec_message() == Some(m@),
                None => self.spec_message() is None,
            },
    {
        match &self.message {
            Some(m) => Some(m.clone()),
            None => None,
        }
    }
}

/// A job's result is observed exactly once: after an admitted submit from
/// idle, polling before completion still reports processing and no new
/// message; the completion event ends processing and is recorded; and a
/// further empty poll changes nothing.
pub proof fn lemma_single_job_lifecycle(
    r0: JobRunner,
    r1: JobRunner,
    admitted: bool,
    r2: JobRunner,
    r3: JobRunner,
    m: Seq<char>,
    r4: JobRunner,
)
    requires
        !r0.is_processing(),
        submit_transition(r0, r1, admitted),
        poll_transition(r1, r2, None),
        poll_transition(r2, r3, Some(m)),
        poll_transition(r3, r4, None),
    ensures
        admitted,
        r1.is_processing(),
        r2.is_processing(),
        r2.spec_message() == r0.spec_message(),
        !r3.is_processing(),
        r3.spec_message() == Some(m),
        !r4.is_processing(),
        r4.spec_message() == Some(m),
{
}

} // verus!
