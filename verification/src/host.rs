//! What the library asks of the program around it, and what that program
//! answers: directories and files, commands to run, and how they ended.

use vstd::prelude::*;
use vstd::string::*;

verus! {

/// The texts of `list`.
pub open spec fn texts(list: Seq<String>) -> Seq<Seq<char>> {
    Seq::new(list.len(), |i: int| list[i]@)
}

/// A copy of `list`.
pub fn copy_strings(list: &Vec<String>) -> (copy: Vec<String>)
    ensures
        texts(copy@) == texts(list@),
{
    let mut copy: Vec<String> = Vec::new();
    let mut i: usize = 0;
    while i < list.len()
        invariant
            i <= list@.len(),
            copy@.len() == i,
            texts(copy@) == texts(list@).take(i as int),
        decreases list@.len() - i,
    {
        copy.push(list[i].clone());
        proof {
            assert forall|j: int| 0 <= j < i + 1 implies texts(copy@)[j] == texts(list@).take(
                i + 1,
            )[j] by {}
        }
        i += 1;
    }
    copy
}

/// A place in the file system: `relative` below the directory `base`, or
/// `base` itself where `relative` is empty.
#[derive(Debug)]
pub struct FilePath {
    pub base: String,
    pub relative: String,
}

/// The mathematical value of a `FilePath`.
pub struct FilePathView {
    pub base: Seq<char>,
    pub relative: Seq<char>,
}

impl FilePathView {
    /// The path as messages show it.
    pub open spec fn text(self) -> Seq<char> {
        if self.relative.len() == 0 {
            self.base
        } else {
            self.base + "/"@ + self.relative
        }
    }
}

impl View for FilePath {
    type V = FilePathView;

    open spec fn view(&self) -> FilePathView {
        FilePathView { base: self.base@, relative: self.relative@ }
    }
}

impl Clone for FilePath {
    fn clone(&self) -> (copy: Self)
        ensures
            copy@ == self@,
    {
        FilePath { base: self.base.clone(), relative: self.relative.clone() }
    }
}

impl FilePath {
    /// The path as messages show it.
    pub fn to_string(&self) -> (text: String)
        ensures
            text@ == self@.text(),
    {
        if self.relative.as_str().unicode_len() == 0 {
            self.base.clone()
        } else {
            self.base.clone().concat("/").concat(self.relative.as_str())
        }
    }

    /// `relative` below `base`.
    pub fn new(base: &str, relative: &str) -> (path: Self)
        ensures
            path@ == (FilePathView { base: base@, relative: relative@ }),
    {
        FilePath { base: String::from_str(base), relative: String::from_str(relative) }
    }
}

/// A program to run: its name, its arguments in order, and the directory to
/// run it in, if it matters.
#[derive(Debug)]
pub struct Command {
    pub program: String,
    pub args: Vec<String>,
    pub dir: Option<FilePath>,
}

/// The mathematical value of a `Command`.
pub struct CommandView {
    pub program: Seq<char>,
    pub args: Seq<Seq<char>>,
    pub dir: Option<FilePathView>,
}

impl View for Command {
    type V = CommandView;

    open spec fn view(&self) -> CommandView {
        CommandView {
            program: self.program@,
            args: texts(self.args@),
            dir: match self.dir {
                Some(dir) => Some(dir@),
                None => None,
            },
        }
    }
}

impl Clone for Command {
    fn clone(&self) -> (copy: Self)
        ensures
            copy@ == self@,
    {
        Command {
            program: self.program.clone(),
            args: copy_strings(&self.args),
            dir: match &self.dir {
                Some(dir) => Some(dir.clone()),
                None => None,
            },
        }
    }
}

impl Command {
    /// `program` without arguments, to run in `dir`.
    pub fn new(program: &str, dir: Option<FilePath>) -> (command: Self)
        ensures
            command@ == (CommandView {
                program: program@,
                args: Seq::empty(),
                dir: match dir {
                    Some(dir) => Some(dir@),
                    None => None,
                },
            }),
    {
        let command = Command { program: String::from_str(program), args: Vec::new(), dir };
        assert(texts(command.args@) =~= Seq::empty());
        command
    }

    /// The command with `arg` as one more argument.
    pub fn arg(self, arg: &str) -> (command: Self)
        ensures
            command@ == (CommandView { args: self@.args.push(arg@), ..self@ }),
    {
        let mut args = self.args;
        let ghost before = texts(args@);
        args.push(String::from_str(arg));
        assert(texts(args@) =~= before.push(arg@));
        Command { program: self.program, args, dir: self.dir }
    }
}

/// A change to the file system.
#[derive(Debug)]
pub enum FileRequest {
    /// Create the directory, and those above it, unless they exist.
    CreateDirectory(FilePath),
    /// Write `content` to the file, in place of what it held.
    WriteFile { path: FilePath, content: String },
}

/// The mathematical value of a `FileRequest`.
pub enum FileRequestView {
    CreateDirectory(FilePathView),
    WriteFile { path: FilePathView, content: Seq<char> },
}

impl View for FileRequest {
    type V = FileRequestView;

    open spec fn view(&self) -> FileRequestView {
        match self {
            FileRequest::CreateDirectory(path) => FileRequestView::CreateDirectory(path@),
            FileRequest::WriteFile { path, content } => FileRequestView::WriteFile {
                path: path@,
                content: content@,
            },
        }
    }
}

/// The values of `list`.
pub open spec fn file_requests(list: Seq<FileRequest>) -> Seq<FileRequestView> {
    Seq::new(list.len(), |i: int| list[i]@)
}

/// How a request ended.
#[derive(Debug)]
pub enum Reply {
    /// The request was carried out. For a file that was read, its content.
    Done(String),
    /// The request could not be carried out: the reason.
    Failed(String),
    /// The program ran to its end.
    Exited { success: bool, stdout: String, stderr: String },
}

/// The mathematical value of a `Reply`.
pub enum ReplyView {
    Done(Seq<char>),
    Failed(Seq<char>),
    Exited { success: bool, stdout: Seq<char>, stderr: Seq<char> },
}

impl View for Reply {
    type V = ReplyView;

    open spec fn view(&self) -> ReplyView {
        match self {
            Reply::Done(content) => ReplyView::Done(content@),
            Reply::Failed(reason) => ReplyView::Failed(reason@),
            Reply::Exited { success, stdout, stderr } => ReplyView::Exited {
                success: *success,
                stdout: stdout@,
                stderr: stderr@,
            },
        }
    }
}

impl Clone for Reply {
    fn clone(&self) -> (copy: Self)
        ensures
            copy@ == self@,
    {
        match self {
            Reply::Done(content) => Reply::Done(content.clone()),
            Reply::Failed(reason) => Reply::Failed(reason.clone()),
            Reply::Exited { success, stdout, stderr } => Reply::Exited {
                success: *success,
                stdout: stdout.clone(),
                stderr: stderr.clone(),
            },
        }
    }
}

} // verus!
