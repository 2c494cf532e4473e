//! Telegram: uploading the avatar file in parts, and signing in.
//! The program around the library sends each request to Telegram; the
//! machines here decide what is sent and how each answer is taken.

use vstd::prelude::*;
use crate::codecs::{hex_encode, md5_compute, md5_digest, spec_hex_lower};

verus! {

/// The largest part a file is uploaded in: 512 KiB.
pub const MAX_CHUNK_SIZE: usize = 524288;

/// The largest file that is uploaded: 10 MiB; bigger files are refused.
pub const BIG_FILE_SIZE: usize = 10485760;

/// The number of parts `len` bytes are uploaded in.
pub open spec fn part_count(len: nat) -> nat {
    ((len + MAX_CHUNK_SIZE - 1) / (MAX_CHUNK_SIZE as int)) as nat
}

/// Part `i` of `bytes`: the `MAX_CHUNK_SIZE` bytes from `i * MAX_CHUNK_SIZE`
/// on, or what is left of them at the end.
pub open spec fn spec_chunk(bytes: Seq<u8>, i: nat) -> Seq<u8> {
    let start = i * MAX_CHUNK_SIZE;
    let end = if (i + 1) * MAX_CHUNK_SIZE <= bytes.len() {
        (i + 1) * MAX_CHUNK_SIZE
    } else {
        bytes.len() as int
    };
    bytes.subrange(start as int, end)
}

/// The first `k` parts of `bytes`, one after the other.
pub open spec fn parts_upto(bytes: Seq<u8>, k: nat) -> Seq<u8>
    decreases k,
{
    if k == 0 {
        seq![]
    } else {
        parts_upto(bytes, (k - 1) as nat) + spec_chunk(bytes, (k - 1) as nat)
    }
}

proof fn lemma_part_count_bounds(len: nat, k: nat)
    ensures
        k < part_count(len) ==> k * MAX_CHUNK_SIZE < len,
        k >= part_count(len) ==> k * MAX_CHUNK_SIZE >= len,
{
    let m = MAX_CHUNK_SIZE as int;
    let c = part_count(len) as int;
    assert(c * m <= len + m - 1 < c * m + m) by (nonlinear_arith)
        requires
            m > 0,
            c == (len + m - 1) / m,
    ;
    if k < c {
        assert(k * m <= (c - 1) * m) by (nonlinear_arith)
            requires
                k <= c - 1,
                m > 0,
        ;
    } else {
        assert(k * m >= c * m) by (nonlinear_arith)
            requires
                k >= c,
                m > 0,
        ;
    }
}

proof fn lemma_parts_upto(bytes: Seq<u8>, k: nat)
    requires
        k <= part_count(bytes.len()),
    ensures
        k * MAX_CHUNK_SIZE <= bytes.len() ==> parts_upto(bytes, k) =~= bytes.subrange(
            0,
            k * MAX_CHUNK_SIZE,
        ),
        k * MAX_CHUNK_SIZE > bytes.len() ==> parts_upto(bytes, k) =~= bytes,
    decreases k,
{
    if k > 0 {
        let j = (k - 1) as nat;
        lemma_parts_upto(bytes, j);
        lemma_part_count_bounds(bytes.len(), j);
        assert((j + 1) * MAX_CHUNK_SIZE == j * MAX_CHUNK_SIZE + MAX_CHUNK_SIZE);
        assert(j * MAX_CHUNK_SIZE <= bytes.len());
    }
}

/// The parts of a file, one after the other, are the file; each holds at
/// least one byte and at most `MAX_CHUNK_SIZE`; a file of at most
/// `BIG_FILE_SIZE` bytes has at most 20 parts.
pub proof fn lemma_parts_cover(bytes: Seq<u8>)
    ensures
        parts_upto(bytes, part_count(bytes.len())) == bytes,
        forall|i: nat|
            i < part_count(bytes.len()) ==> 0 < #[trigger] spec_chunk(bytes, i).len()
                <= MAX_CHUNK_SIZE,
        bytes.len() <= BIG_FILE_SIZE ==> part_count(bytes.len()) <= 20,
{
    let c = part_count(bytes.len());
    lemma_parts_upto(bytes, c);
    lemma_part_count_bounds(bytes.len(), c);
    if c * MAX_CHUNK_SIZE == bytes.len() {
        assert(bytes.subrange(0, c * MAX_CHUNK_SIZE) =~= bytes);
    }
    assert forall|i: nat| i < c implies 0 < #[trigger] spec_chunk(bytes, i).len()
        <= MAX_CHUNK_SIZE by {
        lemma_part_count_bounds(bytes.len(), i);
        assert((i + 1) * MAX_CHUNK_SIZE == i * MAX_CHUNK_SIZE + MAX_CHUNK_SIZE);
    }
}

/// One call of `next_action` on an upload of `len` bytes that has sent
/// `next` parts: the parts sent after it, and the part it sends (`None`
/// when it finishes the upload instead).
pub open spec fn spec_upload_step(len: nat, next: nat) -> (nat, Option<nat>) {
    if next < part_count(len) {
        (next + 1, Some(next))
    } else {
        (next, None)
    }
}

/// What `calls` calls of `next_action` do, one after the other, from an
/// upload of `len` bytes that has sent `next` parts.
pub open spec fn spec_upload_trace(len: nat, next: nat, calls: nat) -> Seq<Option<nat>>
    decreases calls,
{
    if calls == 0 {
        seq![]
    } else {
        let (n, a) = spec_upload_step(len, next);
        seq![a] + spec_upload_trace(len, n, (calls - 1) as nat)
    }
}

proof fn lemma_upload_trace_from(len: nat, next: nat)
    requires
        next <= part_count(len),
    ensures
        spec_upload_trace(len, next, (part_count(len) - next + 1) as nat) =~= Seq::new(
            (part_count(len) - next) as nat,
            |i: int| Some((next + i) as nat),
        ).push(None),
    decreases part_count(len) - next,
{
    let c = part_count(len);
    let calls = (c - next + 1) as nat;
    let expected = Seq::new((c - next) as nat, |i: int| Some((next + i) as nat)).push(None);
    if next < c {
        lemma_upload_trace_from(len, next + 1);
        let tail = spec_upload_trace(len, next + 1, (calls - 1) as nat);
        assert(spec_upload_trace(len, next, calls) =~= seq![Some(next)] + tail);
        assert forall|i: int| 0 <= i < expected.len() implies #[trigger] expected[i] == (seq![
            Some(next),
        ] + tail)[i] by {
            if i > 0 {
                assert(tail[i - 1] == expected[i]);
            }
        }
    } else {
        assert(spec_upload_trace(len, next, 0) =~= Seq::<Option<nat>>::empty());
        assert(spec_upload_trace(len, next, calls) =~= seq![None::<nat>]);
    }
}

/// A new upload sends its parts in order, part 0 first, each once, and the
/// call after the last part finishes it.
pub proof fn lemma_upload_sends_parts_in_order(len: nat)
    ensures
        spec_upload_trace(len, 0, part_count(len) + 1) =~= Seq::new(
            part_count(len),
            |i: int| Some(i as nat),
        ).push(None),
{
    lemma_upload_trace_from(len, 0);
}

/// Why an upload failed.
#[derive(Debug)]
pub enum UploadError {
    /// The file is bigger than `BIG_FILE_SIZE`: "Big files are not yet
    /// supported".
    TooBig,
    /// Telegram did not store a part: "server failed to store uploaded data".
    ServerRefused,
    /// Sending a part failed, with this error.
    Transport(String),
}

/// One part of an uploaded file, as Telegram's `upload.saveFilePart` takes it.
pub struct FilePart {
    pub file_id: i64,
    pub file_part: i32,
    pub bytes: Vec<u8>,
}

/// An uploaded file, as Telegram's `inputFile` names it.
pub struct InputFile {
    pub id: i64,
    pub parts: i32,
    pub name: String,
    pub md5_checksum: String,
}

/// The uploaded file `id` of `parts` parts named `name`, whose bytes have
/// the MD5 digest `digest`: the checksum is the digest in lowercase hex.
pub fn input_file(id: i64, parts: i32, name: String, digest: &Vec<u8>) -> (r: InputFile)
    ensures
        r.id == id,
        r.parts == parts,
        r.name@ == name@,
        r.md5_checksum@ == spec_hex_lower(digest@),
{
    InputFile { id, parts, name, md5_checksum: hex_encode(digest.as_slice()) }
}

/// What the program does next in an upload.
pub enum UploadAction {
    /// Send this part.
    SavePart(FilePart),
    /// Every part was stored: this is the uploaded file.
    Finish(InputFile),
}

/// An upload of `bytes` as the file `name`, of which `next` parts have been
/// sent.
pub struct FileUpload {
    file_id: i64,
    name: String,
    bytes: Vec<u8>,
    next: usize,
}

impl FileUpload {
    pub closed spec fn spec_file_id(&self) -> i64 {
        self.file_id
    }

    pub closed spec fn spec_name(&self) -> Seq<char> {
        self.name@
    }

    pub closed spec fn spec_bytes(&self) -> Seq<u8> {
        self.bytes@
    }

    pub closed spec fn spec_next(&self) -> nat {
        self.next as nat
    }

    /// A file that is not too big, of which at most all parts have been sent.
    #[verifier::type_invariant]
    closed spec fn wf(&self) -> bool {
        &&& self.bytes@.len() <= BIG_FILE_SIZE
        &&& self.next <= part_count(self.bytes@.len())
    }

    /// An upload of `bytes` as file `file_id` named `name`; a file bigger
    /// than `BIG_FILE_SIZE` is refused before any part is sent.
    pub fn new(file_id: i64, name: String, bytes: Vec<u8>) -> (r: Result<FileUpload, UploadError>)
        ensures
            r is Err <==> bytes@.len() > BIG_FILE_SIZE,
            r matches Err(e) ==> e is TooBig,
            r matches Ok(u) ==> {
                &&& u.spec_file_id() == file_id
                &&& u.spec_name() == name@
                &&& u.spec_bytes() == bytes@
                &&& u.spec_next() == 0
            },
    {
        if bytes.len() > BIG_FILE_SIZE {
            return Err(UploadError::TooBig);
        }
        Ok(FileUpload { file_id, name, bytes, next: 0 })
    }

    /// The next part to send, or, once all were sent, the uploaded file with
    /// the number of its parts and the lowercase hex MD5 of its bytes.
    pub fn next_action(&mut self) -> (r: UploadAction)
        ensures
            final(self).spec_file_id() == old(self).spec_file_id(),
            final(self).spec_name() == old(self).spec_name(),
            final(self).spec_bytes() == old(self).spec_bytes(),
            final(self).spec_next() == spec_upload_step(
                old(self).spec_bytes().len(),
                old(self).spec_next(),
            ).0,
            match r {
                UploadAction::SavePart(p) => spec_upload_step(
                    old(self).spec_bytes().len(),
                    old(self).spec_next(),
                ).1 == Some(p.file_part as nat),
                UploadAction::Finish(_) => spec_upload_step(
                    old(self).spec_bytes().len(),
                    old(self).spec_next(),
                ).1 is None,
            },
            old(self).spec_next() < part_count(old(self).spec_bytes().len()) ==> {
                &&& final(self).spec_next() == old(self).spec_next() + 1
                &&& r matches UploadAction::SavePart(p) && {
                    &&& p.file_id == old(self).spec_file_id()
                    &&& p.file_part == old(self).spec_next()
                    &&& p.bytes@ == spec_chunk(old(self).spec_bytes(), old(self).spec_next())
                }
            },
            old(self).spec_next() == part_count(old(self).spec_bytes().len()) ==> {
                &&& final(self).spec_next() == old(self).spec_next()
                &&& r matches UploadAction::Finish(f) && {
                    &&& f.id == old(self).spec_file_id()
                    &&& f.parts == part_count(old(self).spec_bytes().len())
                    &&& f.name@ == old(self).spec_name()
                    &&& f.md5_checksum@ == spec_hex_lower(md5_digest(old(self).spec_bytes()))
                }
            },
    {
        proof {
            use_type_invariant(&*self);
        }
        let len = self.bytes.len();
        let count = (len + MAX_CHUNK_SIZE - 1) / MAX_CHUNK_SIZE;
        assert(count <= 20) by (nonlinear_arith)
            requires
                count == (len + MAX_CHUNK_SIZE - 1) / (MAX_CHUNK_SIZE as int),
                len <= BIG_FILE_SIZE,
        ;
        if self.next < count {
            let i = self.next;
            let start = i * MAX_CHUNK_SIZE;
            let end = if (i + 1) * MAX_CHUNK_SIZE <= len {
                (i + 1) * MAX_CHUNK_SIZE
            } else {
                len
            };
            assert(start <= end) by (nonlinear_arith)
                requires
                    i < count,
                    count == (len + MAX_CHUNK_SIZE - 1) / (MAX_CHUNK_SIZE as int),
                    start == i * MAX_CHUNK_SIZE,
                    end == len || end == (i + 1) * MAX_CHUNK_SIZE,
                    end <= len,
            ;
            let mut bytes: Vec<u8> = Vec::new();
            let mut j = start;
            while j < end
                invariant
                    start <= j <= end <= len,
                    len == self.bytes@.len(),
                    bytes@ == self.bytes@.subrange(start as int, j as int),
                decreases end - j,
            {
                bytes.push(self.bytes[j]);
                j = j + 1;
                assert(bytes@ =~= self.bytes@.subrange(start as int, j as int));
            }
            self.next = self.next + 1;
            UploadAction::SavePart(FilePart { file_id: self.file_id, file_part: i as i32, bytes })
        } else {
            let digest = md5_compute(self.bytes.as_slice());
            UploadAction::Finish(input_file(self.file_id, count as i32, self.name.clone(), &digest))
        }
    }

    /// How the answer to a sent part is taken: stored (`Ok(true)`) goes on;
    /// not stored (`Ok(false)`) or an error ends the upload.
    pub fn part_result(result: Result<bool, String>) -> (r: Result<(), UploadError>)
        ensures
            match result {
                Ok(true) => r is Ok,
                Ok(false) => r matches Err(e) && e is ServerRefused,
                Err(m) => r matches Err(e) && e matches UploadError::Transport(t) && t == m,
            },
    {
        match result {
            Ok(true) => Ok(()),
            Ok(false) => Err(UploadError::ServerRefused),
            Err(m) => Err(UploadError::Transport(m)),
        }
    }
}

/// The text of `s` without its leading and trailing whitespace, as
/// `str::trim` leaves it.
pub uninterp spec fn trimmed(s: Seq<char>) -> Seq<char>;

/// `str::trim` of std, owned: its result is named `trimmed`. Which
/// characters count as whitespace (Unicode's White_Space) is not stated.
#[verifier::external_body]
fn trim(s: &str) -> (r: String)
    ensures
        r@ == trimmed(s@),
{
    s.trim().to_owned()
}

/// Where a sign-in stands.
#[derive(PartialEq, Eq, Structural, Clone, Copy, Debug)]
pub enum AuthStage {
    CheckingAuthorization,
    RequestingLoginCode,
    AwaitingCode,
    SigningIn,
    CheckingPassword,
    SavingSession,
    Done,
}

/// How Telegram answered the login code.
pub enum SignInOutcome {
    SignedIn,
    /// The account has two-step verification: its password is needed.
    PasswordRequired,
    /// Signing in failed with this error.
    Failed(String),
}

/// What the program reports back to a sign-in.
pub enum AuthEvent {
    /// Whether the session is already authorized.
    Authorized(bool),
    /// Telegram sent the login code.
    LoginCodeSent,
    /// The user entered this code.
    CodeEntered(String),
    /// Telegram's answer to the code.
    SignIn(SignInOutcome),
    /// Telegram accepted the password.
    PasswordChecked,
    /// The result of saving the session to its file.
    SessionSaved(Result<(), String>),
}

/// What the program does next in a sign-in.
pub enum AuthAction {
    /// Ask Telegram whether the session is authorized.
    CheckAuthorization,
    /// Ask Telegram for a login code for the phone.
    RequestLoginCode,
    /// Ask the user for the code.
    AskForCode,
    /// Sign in with this code.
    SignIn(String),
    /// Send this password.
    CheckPassword(String),
    /// Signing in failed: stop with this message.
    Fail(String),
    /// Save the session to its file.
    SaveSession,
    /// Signed in; print the note, where there is one.
    Finish(Option<String>),
}

/// A sign-in with `password` for two-step verification.
pub struct AuthFlow {
    password: String,
    stage: AuthStage,
}

impl AuthFlow {
    pub closed spec fn spec_password(&self) -> Seq<char> {
        self.password@
    }

    pub closed spec fn spec_stage(&self) -> AuthStage {
        self.stage
    }

    /// A sign-in; it starts by asking whether the session is authorized.
    pub fn new(password: String) -> (r: (AuthFlow, AuthAction))
        ensures
            r.0.spec_password() == password@,
            r.0.spec_stage() == AuthStage::CheckingAuthorization,
            r.1 is CheckAuthorization,
    {
        (AuthFlow { password, stage: AuthStage::CheckingAuthorization }, AuthAction::CheckAuthorization)
    }

    /// Whether `event` answers what the sign-in asked for last.
    pub open spec fn expects(&self, event: AuthEvent) -> bool {
        match event {
            AuthEvent::Authorized(_) => self.spec_stage() == AuthStage::CheckingAuthorization,
            AuthEvent::LoginCodeSent => self.spec_stage() == AuthStage::RequestingLoginCode,
            AuthEvent::CodeEntered(_) => self.spec_stage() == AuthStage::AwaitingCode,
            AuthEvent::SignIn(_) => self.spec_stage() == AuthStage::SigningIn,
            AuthEvent::PasswordChecked => self.spec_stage() == AuthStage::CheckingPassword,
            AuthEvent::SessionSaved(_) => self.spec_stage() == AuthStage::SavingSession,
        }
    }

    /// Where the sign-in stands.
    pub fn stage(&self) -> (r: AuthStage)
        ensures
            r == self.spec_stage(),
    {
        self.stage
    }

    /// Whether `event` answers what the sign-in asked for last.
    pub fn expects_event(&self, event: &AuthEvent) -> (r: bool)
        ensures
            r == self.expects(*event),
    {
        match event {
            AuthEvent::Authorized(_) => self.stage == AuthStage::CheckingAuthorization,
            AuthEvent::LoginCodeSent => self.stage == AuthStage::RequestingLoginCode,
            AuthEvent::CodeEntered(_) => self.stage == AuthStage::AwaitingCode,
            AuthEvent::SignIn(_) => self.stage == AuthStage::SigningIn,
            AuthEvent::PasswordChecked => self.stage == AuthStage::CheckingPassword,
            AuthEvent::SessionSaved(_) => self.stage == AuthStage::SavingSession,
        }
    }

    /// The next action after `event`. An authorized session needs nothing
    /// more; otherwise a login code is requested, asked for and sent, the
    /// trimmed password follows when Telegram asks for it, and the session
    /// is saved, a failure to save it only giving a note.
    pub fn on_event(&mut self, event: AuthEvent) -> (r: AuthAction)
        requires
            old(self).expects(event),
        ensures
            final(self).spec_password() == old(self).spec_password(),
            match event {
                AuthEvent::Authorized(true) => (r matches AuthAction::Finish(None))
                    && final(self).spec_stage() == AuthStage::Done,
                AuthEvent::Authorized(false) => r is RequestLoginCode && final(self).spec_stage()
                    == AuthStage::RequestingLoginCode,
                AuthEvent::LoginCodeSent => r is AskForCode && final(self).spec_stage()
                    == AuthStage::AwaitingCode,
                AuthEvent::CodeEntered(c) => (r matches AuthAction::SignIn(s) && s == c)
                    && final(self).spec_stage() == AuthStage::SigningIn,
                AuthEvent::SignIn(SignInOutcome::SignedIn) => r is SaveSession
                    && final(self).spec_stage() == AuthStage::SavingSession,
                AuthEvent::SignIn(SignInOutcome::PasswordRequired) => (r matches AuthAction::CheckPassword(
                    p,
                ) && p@ == trimmed(old(self).spec_password())) && final(self).spec_stage()
                    == AuthStage::CheckingPassword,
                AuthEvent::SignIn(SignInOutcome::Failed(e)) => (r matches AuthAction::Fail(m) && m
                    == e) && final(self).spec_stage() == AuthStage::Done,
                AuthEvent::PasswordChecked => r is SaveSession && final(self).spec_stage()
                    == AuthStage::SavingSession,
                AuthEvent::SessionSaved(Ok(_)) => (r matches AuthAction::Finish(None))
                    && final(self).spec_stage() == AuthStage::Done,
                AuthEvent::SessionSaved(Err(e)) => (r matches AuthAction::Finish(Some(m)) && m@
                    == "NOTE: failed to save the session, will sign out when done: "@ + e@)
                    && final(self).spec_stage() == AuthStage::Done,
            },
    {
        match event {
            AuthEvent::Authorized(true) => {
                self.stage = AuthStage::Done;
                AuthAction::Finish(None)
            },
            AuthEvent::Authorized(false) => {
                self.stage = AuthStage::RequestingLoginCode;
                AuthAction::RequestLoginCode
            },
            AuthEvent::LoginCodeSent => {
                self.stage = AuthStage::AwaitingCode;
                AuthAction::AskForCode
            },
            AuthEvent::CodeEntered(c) => {
                self.stage = AuthStage::SigningIn;
                AuthAction::SignIn(c)
            },
            AuthEvent::SignIn(SignInOutcome::SignedIn) => {
                self.stage = AuthStage::SavingSession;
                AuthAction::SaveSession
            },
            AuthEvent::SignIn(SignInOutcome::PasswordRequired) => {
                self.stage = AuthStage::CheckingPassword;
                AuthAction::CheckPassword(trim(self.password.as_str()))
            },
            AuthEvent::SignIn(SignInOutcome::Failed(e)) => {
                self.stage = AuthStage::Done;
                AuthAction::Fail(e)
            },
            AuthEvent::PasswordChecked => {
                self.stage = AuthStage::SavingSession;
                AuthAction::SaveSession
            },
            AuthEvent::SessionSaved(Ok(_)) => {
                self.stage = AuthStage::Done;
                AuthAction::Finish(None)
            },
            AuthEvent::SessionSaved(Err(e)) => {
                self.stage = AuthStage::Done;
                let mut m = "NOTE: failed to save the session, will sign out when done: ".to_owned();
                m.append(e.as_str());
                AuthAction::Finish(Some(m))
            },
        }
    }
}

} // verus!
