//! The log sink: the captured output and the uploaded files of each task,
//! addressed by task id and file name.

use crate::keyed::{distinct_keys, has_key, keyed, lemma_entry, lemma_push, lemma_update};
use crate::text::same_text;
use vstd::prelude::*;
use vstd::string::*;

verus! {

/// The name of the log that takes a deployment's standard output.
pub const STDOUT: &'static str = "stdout";

/// The name of the log that takes a deployment's error output.
pub const STDERR: &'static str = "stderr";

/// The name under which the access log of a run is uploaded.
pub const ACCESS_LOG: &'static str = "access.log";

/// The name under which the slow-query log of a run is uploaded.
pub const SLOW_LOG: &'static str = "mysql-slow.log";

/// A file of the sink: the task it belongs to and its name.
pub type LogKey = (u64, Seq<char>);

/// One stored file.
struct LogFile {
    task_id: u64,
    name: String,
    text: String,
}

/// The key of a stored file: its task and its name.
spec fn file_key() -> spec_fn(LogFile) -> LogKey {
    |file: LogFile| (file.task_id, file.name@)
}

/// The value of a stored file: its text.
spec fn file_text() -> spec_fn(LogFile) -> Seq<char> {
    |file: LogFile| file.text@
}

/// The contents that a list of distinct files stands for.
spec fn contents_of(files: Seq<LogFile>) -> Map<LogKey, Seq<char>> {
    keyed(files, file_key(), file_text())
}

/// What a file holds after `text` was written to it: the text follows what
/// was there, and a file that did not exist starts with it.
pub open spec fn written(files: Map<LogKey, Seq<char>>, key: LogKey, text: Seq<char>) -> Map<
    LogKey,
    Seq<char>,
> {
    if files.contains_key(key) {
        files.insert(key, files[key] + text)
    } else {
        files.insert(key, text)
    }
}

/// Opening is idempotent: a file that is opened twice is as it is after it
/// was opened once, and so is every other file.
pub proof fn lemma_open_is_idempotent(files: Map<LogKey, Seq<char>>, key: LogKey)
    ensures
        files.insert(key, Seq::empty()).insert(key, Seq::empty()) == files.insert(
            key,
            Seq::empty(),
        ),
{
    assert(files.insert(key, Seq::empty()).insert(key, Seq::empty()) =~= files.insert(
        key,
        Seq::empty(),
    ));
}

/// What is written is what is read: after a write, the file ends with the
/// text written, and the other files are as they were.
pub proof fn lemma_write_then_read(
    files: Map<LogKey, Seq<char>>,
    key: LogKey,
    text: Seq<char>,
    other: LogKey,
)
    requires
        other != key,
    ensures
        written(files, key, text).contains_key(key),
        written(files, key, text)[key] == if files.contains_key(key) {
            files[key] + text
        } else {
            text
        },
        written(files, key, text).contains_key(other) == files.contains_key(other),
        files.contains_key(other) ==> written(files, key, text)[other] == files[other],
{
}

/// The files of all tasks.
pub struct LogSink {
    files: Vec<LogFile>,
}

impl View for LogSink {
    /// The text of each file that exists.
    type V = Map<LogKey, Seq<char>>;

    closed spec fn view(&self) -> Map<LogKey, Seq<char>> {
        contents_of(self.files@)
    }
}

impl LogSink {
    #[verifier::type_invariant]
    spec fn inv(self) -> bool {
        distinct_keys(self.files@, file_key())
    }

    /// A sink without files.
    pub fn new() -> (sink: LogSink)
        ensures
            sink@ == Map::<LogKey, Seq<char>>::empty(),
    {
        LogSink { files: Vec::new() }
    }

    /// Moves the files out, to change them while the sink stays valid.
    fn take_files(&mut self) -> (files: Vec<LogFile>)
        ensures
            files == old(self).files,
            final(self).files@.len() == 0,
    {
        let mut files = Vec::new();
        std::mem::swap(&mut files, &mut self.files);
        files
    }

    /// The position of the file `name` of the task `task_id`.
    fn find(&self, task_id: u64, name: &str) -> (r: Option<usize>)
        ensures
            match r {
                Some(i) => i < self.files.len() && file_key()(self.files[i as int]) == (
                    task_id,
                    name@,
                ),
                None => !has_key(self.files@, file_key(), (task_id, name@)),
            },
    {
        let mut i: usize = 0;
        while i < self.files.len()
            invariant
                i <= self.files.len(),
                forall|k: int| 0 <= k < i ==> file_key()(self.files[k]) != (task_id, name@),
            decreases self.files.len() - i,
        {
            if self.files[i].task_id == task_id && same_text(
                self.files[i].name.as_str(),
                name,
            ) {
                return Some(i);
            }
            i = i + 1;
        }
        None
    }

    /// Opens the file `name` of the task `task_id` for writing: the file
    /// exists afterwards and is empty, whether or not it, or any file of the
    /// task, existed before.
    pub fn open_for_write(&mut self, task_id: u64, name: &str)
        ensures
            final(self)@ == old(self)@.insert((task_id, name@), Seq::<char>::empty()),
    {
        proof {
            use_type_invariant(&*self);
        }
        let found = self.find(task_id, name);
        let mut files = self.take_files();
        let ghost before = files@;
        let file = LogFile { task_id, name: String::from_str(name), text: String::new() };
        match found {
            Some(i) => {
                proof {
                    lemma_update(before, file_key(), file_text(), i as int, file);
                }
                files[i] = file;
            },
            None => {
                proof {
                    lemma_push(before, file_key(), file_text(), file);
                }
                files.push(file);
            },
        }
        self.files = files;
    }

    /// Writes `text` at the end of the file `name` of the task `task_id`.
    /// The file is created by the first write to it.
    pub fn write(&mut self, task_id: u64, name: &str, text: &str)
        ensures
            final(self)@ == written(old(self)@, (task_id, name@), text@),
    {
        proof {
            use_type_invariant(&*self);
        }
        let found = self.find(task_id, name);
        let mut files = self.take_files();
        let ghost before = files@;
        match found {
            Some(i) => {
                proof {
                    lemma_entry(before, file_key(), file_text(), i as int);
                }
                files[i].text.append(text);
                proof {
                    lemma_update(before, file_key(), file_text(), i as int, files[i as int]);
                }
            },
            None => {
                let file = LogFile {
                    task_id,
                    name: String::from_str(name),
                    text: String::from_str(text),
                };
                proof {
                    lemma_push(before, file_key(), file_text(), file);
                }
                files.push(file);
            },
        }
        self.files = files;
    }

    /// The text of the file `name` of the task `task_id`; `None` where no
    /// such file was produced yet, which is no error.
    pub fn read(&self, task_id: u64, name: &str) -> (r: Option<String>)
        ensures
            match r {
                Some(text) => self@.contains_key((task_id, name@)) && text@ == self@[(
                    task_id,
                    name@,
                )],
                None => !self@.contains_key((task_id, name@)),
            },
    {
        proof {
            use_type_invariant(self);
        }
        match self.find(task_id, name) {
            Some(i) => {
                proof {
                    lemma_entry(self.files@, file_key(), file_text(), i as int);
                }
                Some(self.files[i].text.clone())
            },
            None => None,
        }
    }
}

} // verus!
