//! Command lines for the programs that a build runs.

use crate::text::{decimal, format_decimal, join, Text};
use vstd::prelude::*;

verus! {

/// One run of an outside program: what to start, with which arguments, which
/// variables set on top of the environment, and where.
#[derive(Debug, PartialEq, Eq)]
pub struct ToolCall {
    pub program: String,
    pub args: Vec<String>,
    pub envs: Vec<(String, String)>,
    pub dir: Option<String>,
}

/// A [`ToolCall`] as the contracts see it.
pub struct ToolCallView {
    pub program: Text,
    pub args: Seq<Text>,
    pub envs: Seq<(Text, Text)>,
    pub dir: Option<Text>,
}

impl DeepView for ToolCall {
    type V = ToolCallView;

    open spec fn deep_view(&self) -> ToolCallView {
        ToolCallView {
            program: self.program@,
            args: self.args.deep_view(),
            envs: self.envs.deep_view(),
            dir: self.dir.deep_view(),
        }
    }
}

impl View for ToolCall {
    type V = ToolCallView;

    open spec fn view(&self) -> ToolCallView {
        self.deep_view()
    }
}

/// `head` and then each of `words`, with one space before each word.
pub open spec fn spaced(head: Text, words: Seq<Text>) -> Text
    decreases words.len(),
{
    if words.len() == 0 {
        head
    } else {
        spaced(head, words.drop_last()) + " "@ + words.last()
    }
}

/// Writes `head` and then each of `words`, with one space before each word.
pub fn spaced_string(head: &str, words: &Vec<String>) -> (line: String)
    ensures
        line@ == spaced(head@, words.deep_view()),
{
    let mut line = String::from_str(head);
    let mut i: usize = 0;
    while i < words.len()
        invariant
            i <= words.len(),
            line@ == spaced(head@, words.deep_view().take(i as int)),
        decreases words.len() - i,
    {
        proof {
            let all = words.deep_view();
            assert(all.take(i + 1).drop_last() =~= all.take(i as int));
            assert(all.take(i + 1).last() == words[i as int]@);
        }
        line.append(" ");
        line.append(words[i].as_str());
        i = i + 1;
    }
    assert(words.deep_view().take(i as int) =~= words.deep_view());
    line
}

impl ToolCallView {
    /// The program and its arguments as one line.
    pub open spec fn command_line(self) -> Text {
        spaced(self.program, self.args)
    }

    /// The bare program: no argument, no variable, no directory.
    pub open spec fn new(program: Text) -> ToolCallView {
        ToolCallView { program, args: Seq::empty(), envs: Seq::empty(), dir: None }
    }

    /// One more argument at the end.
    pub open spec fn arg(self, arg: Text) -> ToolCallView {
        ToolCallView { args: self.args.push(arg), ..self }
    }

    /// One more variable, set after those already there.
    pub open spec fn env(self, name: Text, value: Text) -> ToolCallView {
        ToolCallView { envs: self.envs.push((name, value)), ..self }
    }

    /// The directory to run in, in place of any named before.
    pub open spec fn current_dir(self, dir: Text) -> ToolCallView {
        ToolCallView { dir: Some(dir), ..self }
    }

    /// `make`: with `-j` and no number where no count is given, with no flag
    /// for a count of zero, with `-j` and the count otherwise.
    pub open spec fn make(jobs: Option<usize>) -> ToolCallView {
        match jobs {
            Some(j) => if j == 0 {
                Self::new("make"@)
            } else {
                Self::new("make"@).arg("-j"@ + decimal(j as nat))
            },
            None => Self::new("make"@).arg("-j"@),
        }
    }

    /// `tar xf` on an archive, unpacking into `dst` where one is given.
    pub open spec fn tar_xf(src: Text, dst: Option<Text>) -> ToolCallView {
        let tar = Self::new("tar"@).arg("xf"@).arg(src);
        match dst {
            Some(dst) => tar.arg("-C"@).arg(dst),
            None => tar,
        }
    }
}

/// Appends a string to a list of strings.
pub fn push_text(list: &mut Vec<String>, item: String)
    ensures
        final(list).deep_view() == old(list).deep_view().push(item@),
{
    let ghost before = list.deep_view();
    list.push(item);
    assert(list.deep_view() =~= before.push(item@));
}

/// A copy of a list of strings.
pub fn copy_texts(list: &Vec<String>) -> (copy: Vec<String>)
    ensures
        copy.deep_view() == list.deep_view(),
{
    let mut copy: Vec<String> = Vec::new();
    let mut i: usize = 0;
    while i < list.len()
        invariant
            i <= list.len(),
            copy.deep_view() == list.deep_view().take(i as int),
        decreases list.len() - i,
    {
        push_text(&mut copy, list[i].clone());
        assert(list.deep_view().take(i + 1) =~= list.deep_view().take(i as int).push(
            list[i as int]@,
        ));
        i = i + 1;
    }
    assert(list.deep_view().take(i as int) =~= list.deep_view());
    copy
}

impl ToolCall {
    /// Starts a command line for `program`.
    pub fn new(program: &str) -> (call: ToolCall)
        ensures
            call@ == ToolCallView::new(program@),
    {
        let call = ToolCall {
            program: String::from_str(program),
            args: Vec::new(),
            envs: Vec::new(),
            dir: None,
        };
        assert(call.args.deep_view() =~= Seq::empty());
        assert(call.envs.deep_view() =~= Seq::empty());
        call
    }

    /// Adds an argument.
    pub fn arg(self, arg: &str) -> (call: ToolCall)
        ensures
            call@ == self@.arg(arg@),
    {
        let mut call = self;
        push_text(&mut call.args, String::from_str(arg));
        call
    }

    /// Sets a variable for the program.
    pub fn env(self, name: &str, value: &str) -> (call: ToolCall)
        ensures
            call@ == self@.env(name@, value@),
    {
        let mut call = self;
        let ghost before = call.envs.deep_view();
        let pair = (String::from_str(name), String::from_str(value));
        call.envs.push(pair);
        assert(call.envs.deep_view() =~= before.push((name@, value@)));
        call
    }

    /// Names the directory to run in.
    pub fn current_dir(self, dir: &str) -> (call: ToolCall)
        ensures
            call@ == self@.current_dir(dir@),
    {
        let mut call = self;
        call.dir = Some(String::from_str(dir));
        call
    }

    /// A `make` that runs `jobs` jobs at once.
    pub fn make(jobs: Option<usize>) -> (call: ToolCall)
        ensures
            call@ == ToolCallView::make(jobs),
    {
        let make = ToolCall::new("make");
        match jobs {
            Some(j) => {
                if j == 0 {
                    make
                } else {
                    let count = format_decimal(j);
                    let flag = join("-j", count.as_str());
                    make.arg(flag.as_str())
                }
            },
            None => make.arg("-j"),
        }
    }

    /// A `tar` that unpacks `src`.
    pub fn tar_xf(src: &str, dst: Option<&str>) -> (call: ToolCall)
        ensures
            call@ == ToolCallView::tar_xf(src@, dst.deep_view()),
    {
        let tar = ToolCall::new("tar").arg("xf").arg(src);
        match dst {
            Some(dst) => tar.arg("-C").arg(dst),
            None => tar,
        }
    }

    /// The program and its arguments as one line.
    pub fn command_line(&self) -> (line: String)
        ensures
            line@ == self@.command_line(),
    {
        spaced_string(self.program.as_str(), &self.args)
    }

    /// A copy of this command line.
    pub fn duplicate(&self) -> (call: ToolCall)
        ensures
            call@ == self@,
    {
        let args = copy_texts(&self.args);
        let mut envs: Vec<(String, String)> = Vec::new();
        let mut k: usize = 0;
        while k < self.envs.len()
            invariant
                k <= self.envs.len(),
                envs.deep_view() == self.envs.deep_view().take(k as int),
            decreases self.envs.len() - k,
        {
            let ghost before = envs.deep_view();
            let pair = (self.envs[k].0.clone(), self.envs[k].1.clone());
            envs.push(pair);
            assert(envs.deep_view() =~= before.push(self.envs[k as int].deep_view()));
            assert(self.envs.deep_view().take(k + 1) =~= self.envs.deep_view().take(
                k as int,
            ).push(self.envs[k as int].deep_view()));
            k = k + 1;
        }
        assert(self.envs.deep_view().take(k as int) =~= self.envs.deep_view());
        let dir = match &self.dir {
            Some(d) => Some(d.clone()),
            None => None,
        };
        ToolCall { program: self.program.clone(), args, envs, dir }
    }
}

} // verus!
