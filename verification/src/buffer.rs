//! The buffer store: what is written to a buffer, and in which order the
//! file is looked up, decrypted, written and encrypted again.
//!
//! The caller owns the file system and the two transform programs. It asks a
//! [`BufferJob`] what to do next, does it, and reports what happened; the job
//! decides what follows.

use vstd::prelude::*;
use vstd::string::*;
use crate::config::Config;
use crate::errors::BufferError;
use crate::names::{buffer_file_path, joined};

verus! {

/// Program that turns a buffer back into plain text, in place.
pub const DECRYPT_PROGRAM: &'static str = "unscramble";

/// Program that encrypts a buffer, in place.
pub const ENCRYPT_PROGRAM: &'static str = "scramble";

/// What one fragment adds to a buffer: the fragment on a line of its own,
/// with a line break before it.
pub open spec fn entry(text: Seq<char>) -> Seq<char> {
    "\n"@ + text + "\n"@
}

/// The plain text of a buffer that started as `base` and has taken the
/// fragments `texts`, oldest first.
pub open spec fn journal(base: Seq<char>, texts: Seq<Seq<char>>) -> Seq<char>
    decreases texts.len(),
{
    if texts.len() == 0 {
        base
    } else {
        journal(base, texts.drop_last()) + entry(texts.last())
    }
}

/// The text that is appended to a buffer for one fragment.
pub fn entry_text(buf_text: &str) -> (text: String)
    ensures
        text@ == entry(buf_text@),
{
    let mut text = String::from_str("\n");
    text.append(buf_text);
    text.append("\n");
    text
}

/// One run of a transform program: the program, found on the search path
/// of the process, and its only argument.
#[derive(Clone, Debug, PartialEq, Eq)]
pub struct TransformCommand {
    pub program: String,
    pub argument: String,
}

/// The command that decrypts `file` in place. `file` is the absolute path
/// of the buffer.
pub fn decrypt(file: &str) -> (command: TransformCommand)
    ensures
        command.program@ == DECRYPT_PROGRAM@,
        command.argument@ == file@,
{
    TransformCommand {
        program: String::from_str(DECRYPT_PROGRAM),
        argument: String::from_str(file),
    }
}

/// The command that encrypts `file` in place. `file` is the absolute path
/// of the buffer.
pub fn encrypt(file: &str) -> (command: TransformCommand)
    ensures
        command.program@ == ENCRYPT_PROGRAM@,
        command.argument@ == file@,
{
    TransformCommand {
        program: String::from_str(ENCRYPT_PROGRAM),
        argument: String::from_str(file),
    }
}

/// Whether a transform program that ended with `exit_code` did its work:
/// only an exit code of zero counts. `None` stands for a program that ended
/// without one.
pub fn transform_succeeded(exit_code: Option<i32>) -> (ok: bool)
    ensures
        ok == (exit_code == Some(0i32)),
{
    match exit_code {
        Some(code) => code == 0,
        None => false,
    }
}

/// Where a job stands.
#[derive(Clone, Debug, PartialEq, Eq)]
pub enum BufferStage {
    /// It is not known yet whether the file exists.
    Probing,
    /// The file exists and is being decrypted.
    Decrypting,
    /// The file does not exist; its directories are being created.
    CreatingParents,
    /// The entry is being written to the end of the file.
    Appending,
    /// The file is being encrypted.
    Encrypting,
    /// The entry is in the file and the file is encrypted.
    Stored,
    /// A step failed; none is taken after it.
    Failed(BufferError),
}

/// What the caller is asked to do next.
#[derive(Clone, Debug, PartialEq, Eq)]
pub enum BufferRequest {
    /// Find out whether the file exists.
    Probe { path: String },
    /// Run the decrypt program on the file.
    Decrypt { path: String },
    /// Create the directories above the file.
    CreateParents { path: String },
    /// Open the file for appending, creating it if need be, and write `entry`.
    Append { path: String, entry: String },
    /// Run the encrypt program on the file.
    Encrypt { path: String },
    /// Nothing: the job has ended.
    Finish,
}

/// What the caller reports of the request it was given.
#[derive(Clone, Debug, PartialEq, Eq)]
pub enum BufferEvent {
    /// The answer to `Probe`.
    Found(bool),
    /// The requested step was done.
    Succeeded,
    /// The requested step failed, with the cause.
    Failed(String),
}

/// One change of one buffer.
#[derive(Clone, Debug, PartialEq, Eq)]
pub struct BufferJob {
    /// The file.
    pub path: String,
    /// The text to append.
    pub entry: String,
    /// How far the job has come.
    pub stage: BufferStage,
    /// Whether a step of this job that succeeded has left plain text in the
    /// file: set by decrypting and by writing, cleared by encrypting.
    pub plaintext: bool,
}

impl BufferJob {
    /// The job's state agrees with its stage: plain text is in the file
    /// whenever encryption is pending, and not before the first step that
    /// could put it there, nor once the entry is stored.
    pub open spec fn consistent(self) -> bool {
        match self.stage {
            BufferStage::Probing => !self.plaintext,
            BufferStage::Decrypting => !self.plaintext,
            BufferStage::CreatingParents => !self.plaintext,
            BufferStage::Appending => true,
            BufferStage::Encrypting => self.plaintext,
            BufferStage::Stored => !self.plaintext,
            BufferStage::Failed(_) => true,
        }
    }

    /// The job has ended, well or badly.
    pub open spec fn ended(self) -> bool {
        self.stage is Stored || self.stage is Failed
    }

    /// Number of steps that lie behind the job.
    pub open spec fn progress(self) -> nat {
        match self.stage {
            BufferStage::Probing => 0,
            BufferStage::Decrypting => 1,
            BufferStage::CreatingParents => 1,
            BufferStage::Appending => 2,
            BufferStage::Encrypting => 3,
            BufferStage::Stored => 4,
            BufferStage::Failed(_) => 4,
        }
    }

    /// The request that is pending at each stage.
    pub open spec fn pending(self) -> BufferRequest {
        match self.stage {
            BufferStage::Probing => BufferRequest::Probe { path: self.path },
            BufferStage::Decrypting => BufferRequest::Decrypt { path: self.path },
            BufferStage::CreatingParents => BufferRequest::CreateParents { path: self.path },
            BufferStage::Appending => BufferRequest::Append { path: self.path, entry: self.entry },
            BufferStage::Encrypting => BufferRequest::Encrypt { path: self.path },
            BufferStage::Stored => BufferRequest::Finish,
            BufferStage::Failed(_) => BufferRequest::Finish,
        }
    }

    /// Whether `event` answers the request that is pending.
    pub open spec fn answers(self, event: BufferEvent) -> bool {
        match self.stage {
            BufferStage::Probing => !(event is Succeeded),
            BufferStage::Stored => false,
            BufferStage::Failed(_) => false,
            _ => !(event is Found),
        }
    }

    /// The job after the caller has reported `event`. A report that does not
    /// answer the pending request changes nothing.
    pub open spec fn after(self, event: BufferEvent) -> BufferJob {
        match self.stage {
            BufferStage::Probing => match event {
                BufferEvent::Found(true) => BufferJob { stage: BufferStage::Decrypting, ..self },
                BufferEvent::Found(false) => BufferJob {
                    stage: BufferStage::CreatingParents,
                    ..self
                },
                BufferEvent::Failed(cause) => BufferJob {
                    stage: BufferStage::Failed(BufferError::IoFailed(cause)),
                    ..self
                },
                BufferEvent::Succeeded => self,
            },
            BufferStage::Decrypting => match event {
                BufferEvent::Succeeded => BufferJob {
                    stage: BufferStage::Appending,
                    plaintext: true,
                    ..self
                },
                BufferEvent::Failed(cause) => BufferJob {
                    stage: BufferStage::Failed(BufferError::CryptoFailed(cause)),
                    ..self
                },
                BufferEvent::Found(_) => self,
            },
            BufferStage::CreatingParents => match event {
                BufferEvent::Succeeded => BufferJob { stage: BufferStage::Appending, ..self },
                BufferEvent::Failed(cause) => BufferJob {
                    stage: BufferStage::Failed(BufferError::IoFailed(cause)),
                    ..self
                },
                BufferEvent::Found(_) => self,
            },
            BufferStage::Appending => match event {
                BufferEvent::Succeeded => BufferJob {
                    stage: BufferStage::Encrypting,
                    plaintext: true,
                    ..self
                },
                BufferEvent::Failed(cause) => BufferJob {
                    stage: BufferStage::Failed(BufferError::IoFailed(cause)),
                    ..self
                },
                BufferEvent::Found(_) => self,
            },
            BufferStage::Encrypting => match event {
                BufferEvent::Succeeded => BufferJob {
                    stage: BufferStage::Stored,
                    plaintext: false,
                    ..self
                },
                BufferEvent::Failed(cause) => BufferJob {
                    stage: BufferStage::Failed(BufferError::CryptoFailed(cause)),
                    ..self
                },
                BufferEvent::Found(_) => self,
            },
            BufferStage::Stored => self,
            BufferStage::Failed(_) => self,
        }
    }

    /// What the caller is to do next.
    pub fn request(&self) -> (r: BufferRequest)
        ensures
            r == self.pending(),
    {
        match &self.stage {
            BufferStage::Probing => BufferRequest::Probe { path: self.path.clone() },
            BufferStage::Decrypting => BufferRequest::Decrypt { path: self.path.clone() },
            BufferStage::CreatingParents => BufferRequest::CreateParents {
                path: self.path.clone(),
            },
            BufferStage::Appending => BufferRequest::Append {
                path: self.path.clone(),
                entry: self.entry.clone(),
            },
            BufferStage::Encrypting => BufferRequest::Encrypt { path: self.path.clone() },
            BufferStage::Stored => BufferRequest::Finish,
            BufferStage::Failed(_) => BufferRequest::Finish,
        }
    }

    /// Takes the caller's report of the pending request and moves on.
    pub fn advance(self, event: BufferEvent) -> (next: BufferJob)
        ensures
            next == self.after(event),
            self.consistent() ==> next.consistent(),
    {
        let BufferJob { path, entry, stage, plaintext } = self;
        match stage {
            BufferStage::Probing => match event {
                BufferEvent::Found(true) => BufferJob {
                    path,
                    entry,
                    stage: BufferStage::Decrypting,
                    plaintext,
                },
                BufferEvent::Found(false) => BufferJob {
                    path,
                    entry,
                    stage: BufferStage::CreatingParents,
                    plaintext,
                },
                BufferEvent::Failed(cause) => BufferJob {
                    path,
                    entry,
                    stage: BufferStage::Failed(BufferError::IoFailed(cause)),
                    plaintext,
                },
                BufferEvent::Succeeded => BufferJob { path, entry, stage, plaintext },
            },
            BufferStage::Decrypting => match event {
                BufferEvent::Succeeded => BufferJob {
                    path,
                    entry,
                    stage: BufferStage::Appending,
                    plaintext: true,
                },
                BufferEvent::Failed(cause) => BufferJob {
                    path,
                    entry,
                    stage: BufferStage::Failed(BufferError::CryptoFailed(cause)),
                    plaintext,
                },
                BufferEvent::Found(_) => BufferJob { path, entry, stage, plaintext },
            },
            BufferStage::CreatingParents => match event {
                BufferEvent::Succeeded => BufferJob {
                    path,
                    entry,
                    stage: BufferStage::Appending,
                    plaintext,
                },
                BufferEvent::Failed(cause) => BufferJob {
                    path,
                    entry,
                    stage: BufferStage::Failed(BufferError::IoFailed(cause)),
                    plaintext,
                },
                BufferEvent::Found(_) => BufferJob { path, entry, stage, plaintext },
            },
            BufferStage::Appending => match event {
                BufferEvent::Succeeded => BufferJob {
                    path,
                    entry,
                    stage: BufferStage::Encrypting,
                    plaintext: true,
                },
                BufferEvent::Failed(cause) => BufferJob {
                    path,
                    entry,
                    stage: BufferStage::Failed(BufferError::IoFailed(cause)),
                    plaintext,
                },
                BufferEvent::Found(_) => BufferJob { path, entry, stage, plaintext },
            },
            BufferStage::Encrypting => match event {
                BufferEvent::Succeeded => BufferJob {
                    path,
                    entry,
                    stage: BufferStage::Stored,
                    plaintext: false,
                },
                BufferEvent::Failed(cause) => BufferJob {
                    path,
                    entry,
                    stage: BufferStage::Failed(BufferError::CryptoFailed(cause)),
                    plaintext,
                },
                BufferEvent::Found(_) => BufferJob { path, entry, stage, plaintext },
            },
            BufferStage::Stored => BufferJob { path, entry, stage, plaintext },
            BufferStage::Failed(e) => BufferJob {
                path,
                entry,
                stage: BufferStage::Failed(e),
                plaintext,
            },
        }
    }

    /// How the job ended: `None` while a request is pending.
    pub fn outcome(self) -> (r: Option<Result<(), BufferError>>)
        ensures
            r == match self.stage {
                BufferStage::Stored => Some(Ok::<(), BufferError>(())),
                BufferStage::Failed(e) => Some(Err::<(), BufferError>(e)),
                _ => None::<Result<(), BufferError>>,
            },
    {
        match self.stage {
            BufferStage::Stored => Some(Ok(())),
            BufferStage::Failed(e) => Some(Err(e)),
            _ => None,
        }
    }

    /// Whether the job leaves plain text in the file as far as its own steps
    /// tell.
    pub fn leaves_plaintext(&self) -> (b: bool)
        ensures
            b == self.plaintext,
    {
        self.plaintext
    }
}

/// Begins appending `buf_text` to the buffer `buf_name` of the mirror that
/// `conf` describes. Nothing has been done yet; the first request is to find
/// out whether the file exists.
pub fn modify_buffer(buf_name: &String, buf_text: &String, conf: &Config) -> (job: BufferJob)
    ensures
        job.path@ == joined(conf.local_dir@, joined(conf.buffer_dir_rel@, buf_name@)),
        job.entry@ == entry(buf_text@),
        job.stage == BufferStage::Probing,
        !job.plaintext,
        job.consistent(),
{
    BufferJob {
        path: buffer_file_path(conf, buf_name.as_str()),
        entry: entry_text(buf_text.as_str()),
        stage: BufferStage::Probing,
        plaintext: false,
    }
}

/// Appending a fragment keeps every earlier fragment, in order, and puts the
/// new one last: the text before the write is the beginning of the text
/// after it, and what follows is the new entry alone.
pub proof fn lemma_append_keeps_entries(base: Seq<char>, texts: Seq<Seq<char>>, text: Seq<char>)
    ensures
        journal(base, texts) + entry(text) == journal(base, texts.push(text)),
        journal(base, texts).is_prefix_of(journal(base, texts.push(text))),
        journal(base, texts.push(text)).skip(journal(base, texts).len() as int) == entry(text),
{
    let before = journal(base, texts);
    let more = texts.push(text);
    assert(more.drop_last() == texts);
    assert(more.last() == text);
    assert(journal(base, more) == before + entry(text));
    assert((before + entry(text)).skip(before.len() as int) == entry(text));
}

/// The fragments already in a buffer stay where they are however many more
/// are appended: the text after any number of appends begins with the text
/// before them.
pub proof fn lemma_journal_grows(base: Seq<char>, texts: Seq<Seq<char>>, n: int)
    requires
        0 <= n <= texts.len(),
    ensures
        journal(base, texts.take(n)).is_prefix_of(journal(base, texts)),
    decreases texts.len() - n,
{
    if n == texts.len() {
        assert(texts.take(n) == texts);
    } else {
        lemma_journal_grows(base, texts, n + 1);
        let shorter = texts.take(n);
        let longer = texts.take(n + 1);
        assert(longer.drop_last() == shorter);
        assert(journal(base, longer) == journal(base, shorter) + entry(longer.last()));
    }
}

/// A job that has ended asks for nothing more and no report changes it: a
/// failure ends the job at the step that failed.
pub proof fn lemma_ended_job_stays(job: BufferJob, event: BufferEvent)
    requires
        job.ended(),
    ensures
        job.pending() == BufferRequest::Finish,
        job.after(event) == job,
{
}

/// A report that answers the pending request moves the job one step on or
/// ends it, so no job takes more than four steps.
pub proof fn lemma_step_makes_progress(job: BufferJob, event: BufferEvent)
    requires
        job.answers(event),
    ensures
        job.after(event).progress() == job.progress() + 1 || job.after(event).stage is Failed,
        job.after(event).progress() > job.progress(),
        job.after(event).path == job.path,
        job.after(event).entry == job.entry,
{
}

/// The entry is stored only by an encryption that succeeded, encryption is
/// asked for only after the write succeeded, and the write only after the
/// file was decrypted or its directories were made.
pub proof fn lemma_steps_in_order(job: BufferJob, event: BufferEvent)
    requires
        job.after(event) != job,
    ensures
        job.after(event).stage is Stored ==> job.stage is Encrypting && event is Succeeded,
        job.after(event).stage is Encrypting ==> job.stage is Appending && event is Succeeded,
        job.after(event).stage is Appending ==> (job.stage is Decrypting
            || job.stage is CreatingParents) && event is Succeeded,
        job.after(event).stage is Decrypting ==> job.stage is Probing && event
            == BufferEvent::Found(true),
        job.after(event).stage is CreatingParents ==> job.stage is Probing && event
            == BufferEvent::Found(false),
{
}

/// When encrypting fails after the write, the job reports a crypto failure
/// with the cause it was given, and says that plain text is left in the file.
pub proof fn lemma_failed_encryption_is_reported(job: BufferJob, cause: String)
    requires
        job.consistent(),
        job.stage is Encrypting,
    ensures
        job.after(BufferEvent::Failed(cause)).stage == BufferStage::Failed(
            BufferError::CryptoFailed(cause),
        ),
        job.after(BufferEvent::Failed(cause)).plaintext,
{
}

/// A job whose entry is stored leaves no plain text behind.
pub proof fn lemma_stored_is_encrypted(job: BufferJob)
    requires
        job.consistent(),
        job.stage is Stored,
    ensures
        !job.plaintext,
{
}

} // verus!
