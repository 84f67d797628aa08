//! The configuration of one invocation.

use vstd::prelude::*;

verus! {

/// The value given for the date option, as far as it can be read.
#[derive(Debug)]
pub enum DateOperand {
    /// No date was given: the current time is meant.
    Absent,
    /// A date was given that is not valid text.
    NotText,
    /// A date expression to be parsed.
    Text(String),
}

/// What a `DateOperand` stands for in contracts.
pub enum DateView {
    Absent,
    NotText,
    Text(Seq<char>),
}

impl View for DateOperand {
    type V = DateView;

    open spec fn view(&self) -> DateView {
        match self {
            DateOperand::Absent => DateView::Absent,
            DateOperand::NotText => DateView::NotText,
            DateOperand::Text(text) => DateView::Text(text@),
        }
    }
}

/// What an `Args` stands for in contracts.
pub struct ArgsView {
    pub access: bool,
    pub do_not_create: bool,
    pub date: DateView,
    pub modification: bool,
    pub file_paths: Seq<Seq<char>>,
}

/// Arguments received from the command line.
#[derive(Debug)]
pub struct Args {
    access: bool,
    do_not_create: bool,
    date: DateOperand,
    modification: bool,
    pub file_paths: Vec<String>,
}

impl View for Args {
    type V = ArgsView;

    closed spec fn view(&self) -> ArgsView {
        ArgsView {
            access: self.access,
            do_not_create: self.do_not_create,
            date: self.date@,
            modification: self.modification,
            file_paths: self.file_paths@.map_values(|path: String| path@),
        }
    }
}

impl Args {
    /// Puts the flags, the date operand and the file operands together.
    pub fn new(
        access: bool,
        do_not_create: bool,
        date: DateOperand,
        modification: bool,
        file_paths: Vec<String>,
    ) -> (args: Args)
        ensures
            args@ == (ArgsView {
                access,
                do_not_create,
                date: date@,
                modification,
                file_paths: file_paths@.map_values(|path: String| path@),
            }),
    {
        Args { access, do_not_create, date, modification, file_paths }
    }

    /// Whether the update is restricted to the access time.
    pub fn access(&self) -> (flag: bool)
        ensures
            flag == self@.access,
    {
        self.access
    }

    /// Whether the update is restricted to the modification time.
    pub fn modification(&self) -> (flag: bool)
        ensures
            flag == self@.modification,
    {
        self.modification
    }

    /// Whether missing files are skipped instead of created.
    pub fn do_not_create(&self) -> (flag: bool)
        ensures
            flag == self@.do_not_create,
    {
        self.do_not_create
    }

    /// The date operand.
    pub fn date(&self) -> (date: &DateOperand)
        ensures
            date@ == self@.date,
    {
        &self.date
    }

    /// The number of file operands.
    pub fn count(&self) -> (n: usize)
        ensures
            n == self@.file_paths.len(),
    {
        self.file_paths.len()
    }
}

} // verus!
