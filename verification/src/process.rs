//! The one slot for the renderer process, and the renderer's command line.

use vstd::prelude::*;

verus! {

/// A launched renderer: its process identifier, the media file it was
/// launched with, and whether it is taken to be alive.
#[derive(Clone, Debug, PartialEq, Eq)]
pub struct ProcessRecord {
    pid: u32,
    filepath: String,
    alive: bool,
}

/// The mathematical value of a [`ProcessRecord`].
pub struct ProcessRecordView {
    pub pid: u32,
    pub filepath: Seq<char>,
    pub alive: bool,
}

impl View for ProcessRecord {
    type V = ProcessRecordView;

    closed spec fn view(&self) -> ProcessRecordView {
        ProcessRecordView { pid: self.pid, filepath: self.filepath@, alive: self.alive }
    }
}

impl ProcessRecord {
    /// The identifier of the process.
    pub fn pid(&self) -> (pid: u32)
        ensures
            pid == self@.pid,
    {
        self.pid
    }

    /// The media file that the process was launched with.
    pub fn filepath(&self) -> (filepath: &String)
        ensures
            filepath@ == self@.filepath,
    {
        &self.filepath
    }

    /// Whether the process is taken to be alive.
    pub fn is_alive(&self) -> (alive: bool)
        ensures
            alive == self@.alive,
    {
        self.alive
    }
}

/// Holds at most one [`ProcessRecord`].
///
/// The handle keeps the books only: launching and terminating the process is
/// the work of whoever owns the handle. `start` must not be called while a
/// record is held; `stop` may be called at any time.
#[derive(Debug)]
pub struct ProcessHandle {
    slot: Option<ProcessRecord>,
}

impl View for ProcessHandle {
    type V = Option<ProcessRecordView>;

    closed spec fn view(&self) -> Option<ProcessRecordView> {
        match self.slot {
            Some(record) => Some(record@),
            None => None,
        }
    }
}

impl ProcessHandle {
    /// A handle that holds nothing.
    pub fn new() -> (handle: ProcessHandle)
        ensures
            handle@ is None,
    {
        ProcessHandle { slot: None }
    }

    /// Whether a live process is held.
    pub fn is_running(&self) -> (running: bool)
        ensures
            running == (self@ matches Some(record) && record.alive),
    {
        match &self.slot {
            Some(record) => record.alive,
            None => false,
        }
    }

    /// The record that is held, if any.
    pub fn record(&self) -> (record: Option<&ProcessRecord>)
        ensures
            match record {
                Some(r) => self@ == Some(r@),
                None => self@ is None,
            },
    {
        self.slot.as_ref()
    }

    /// The identifier of the process that is held, if any.
    pub fn pid(&self) -> (pid: Option<u32>)
        ensures
            match pid {
                Some(p) => self@ matches Some(record) && record.pid == p,
                None => self@ is None,
            },
    {
        match &self.slot {
            Some(record) => Some(record.pid),
            None => None,
        }
    }

    /// Records that the renderer was launched for `filepath` and runs as
    /// process `pid`.
    pub fn start(&mut self, pid: u32, filepath: String)
        requires
            old(self)@ is None,
        ensures
            final(self)@ == Some(ProcessRecordView { pid, filepath: filepath@, alive: true }),
    {
        self.slot = Some(ProcessRecord { pid, filepath, alive: true });
    }

    /// Empties the slot and hands out what it held, for the caller to
    /// terminate. With nothing held this changes nothing.
    pub fn stop(&mut self) -> (stopped: Option<ProcessRecord>)
        ensures
            final(self)@ is None,
            match stopped {
                Some(record) => old(self)@ == Some(record@),
                None => old(self)@ is None,
            },
            old(self)@ is None ==> *final(self) == *old(self),
    {
        self.slot.take()
    }
}

/// The fixed words of the renderer's command line: the program first, then
/// its arguments up to the place of the media file.
pub open spec fn renderer_template() -> Seq<Seq<char>> {
    seq![
        "nice"@,
        "xwinwrap"@,
        "-b"@,
        "-s"@,
        "-fs"@,
        "-st"@,
        "-sp"@,
        "-nf"@,
        "-ov"@,
        "-fdt"@,
        "--"@,
        "mpv"@,
        "-wid %WID"@,
        "--loop"@,
        "--no-audio"@,
        "--panscan=1.0"@,
        "--framedrop=vo"@,
    ]
}

/// The renderer's command line for a media file: the fixed words, then the
/// file as the last argument.
pub open spec fn command_line(target: Seq<char>) -> Seq<Seq<char>> {
    renderer_template().push(target)
}

/// The words of a command line as mathematical values.
pub open spec fn words_of(command: Seq<String>) -> Seq<Seq<char>> {
    command.map_values(|word: String| word@)
}

fn push_word(command: &mut Vec<String>, word: &str)
    ensures
        words_of(final(command)@) == words_of(old(command)@).push(word@),
{
    command.push(word.to_owned());
    assert(words_of(command@) =~= words_of(old(command)@).push(word@));
}

/// Builds the renderer's command line for `target`.
pub fn renderer_command(target: &str) -> (command: Vec<String>)
    ensures
        words_of(command@) == command_line(target@),
{
    let mut command: Vec<String> = Vec::new();
    assert(words_of(command@) =~= Seq::<Seq<char>>::empty());
    push_word(&mut command, "nice");
    push_word(&mut command, "xwinwrap");
    push_word(&mut command, "-b");
    push_word(&mut command, "-s");
    push_word(&mut command, "-fs");
    push_word(&mut command, "-st");
    push_word(&mut command, "-sp");
    push_word(&mut command, "-nf");
    push_word(&mut command, "-ov");
    push_word(&mut command, "-fdt");
    push_word(&mut command, "--");
    push_word(&mut command, "mpv");
    push_word(&mut command, "-wid %WID");
    push_word(&mut command, "--loop");
    push_word(&mut command, "--no-audio");
    push_word(&mut command, "--panscan=1.0");
    push_word(&mut command, "--framedrop=vo");
    push_word(&mut command, target);
    command
}

} // verus!
