//! The argument vector that a device shell command is spawned with.

use vstd::prelude::*;
use vstd::string::StringExecFns;

verus! {

/// Name of the executable, resolved through the search path.
pub open spec fn program_name() -> Seq<char> {
    "hdc"@
}

/// Flag that announces the target identifier.
pub open spec fn selector_flag() -> Seq<char> {
    "-t"@
}

/// Flag that puts the tool into shell mode.
pub open spec fn mode_flag() -> Seq<char> {
    "shell"@
}

/// The three arguments that come before the caller's own.
pub open spec fn leading_arguments(target_id: Seq<char>) -> Seq<Seq<char>> {
    seq![selector_flag(), target_id, mode_flag()]
}

/// The whole argument vector: selector flag, target identifier, mode flag,
/// then the caller's arguments as they were given.
pub open spec fn argument_vector(target_id: Seq<char>, passthrough: Seq<Seq<char>>) -> Seq<
    Seq<char>,
> {
    leading_arguments(target_id) + passthrough
}

/// The texts of a list of borrowed strings.
pub open spec fn str_texts(items: Seq<&str>) -> Seq<Seq<char>> {
    Seq::new(items.len(), |i: int| items[i]@)
}

/// The texts of a list of owned strings.
pub open spec fn string_texts(items: Seq<String>) -> Seq<Seq<char>> {
    Seq::new(items.len(), |i: int| items[i]@)
}

/// What an [`Invocation`] holds, as plain sequences.
pub struct InvocationView {
    pub program: Seq<char>,
    pub leading: Seq<Seq<char>>,
    pub trailing: Seq<Seq<char>>,
}

impl InvocationView {
    /// The target identifier among the leading arguments.
    pub open spec fn target_id(self) -> Seq<char> {
        self.leading[1]
    }

    /// Leading arguments followed by trailing ones.
    pub open spec fn argv(self) -> Seq<Seq<char>> {
        self.leading + self.trailing
    }

    /// The leading part is the fixed prefix around some target identifier.
    pub open spec fn well_formed(self) -> bool {
        &&& self.program == program_name()
        &&& self.leading.len() == 3
        &&& self.leading == leading_arguments(self.target_id())
    }
}

/// One command to spawn: the executable, the fixed leading arguments and the
/// caller's trailing arguments. Built per call and never changed afterwards.
pub struct Invocation {
    program: String,
    leading: Vec<String>,
    trailing: Vec<String>,
}

impl View for Invocation {
    type V = InvocationView;

    closed spec fn view(&self) -> InvocationView {
        InvocationView {
            program: self.program@,
            leading: string_texts(self.leading@),
            trailing: string_texts(self.trailing@),
        }
    }
}

impl Invocation {
    #[verifier::type_invariant]
    spec fn inv(&self) -> bool {
        self@.well_formed()
    }

    /// Builds the invocation for `args` against the device `device_id`.
    /// Neither is inspected: both are passed through as given.
    pub fn new(device_id: &str, args: Vec<&str>) -> (invocation: Invocation)
        ensures
            invocation@.well_formed(),
            invocation@.target_id() == device_id@,
            invocation@.trailing == str_texts(args@),
            invocation@.argv() == argument_vector(device_id@, str_texts(args@)),
    {
        let mut leading: Vec<String> = Vec::new();
        leading.push(String::from_str("-t"));
        leading.push(String::from_str(device_id));
        leading.push(String::from_str("shell"));
        let mut trailing: Vec<String> = Vec::new();
        let mut i: usize = 0;
        while i < args.len()
            invariant
                i <= args.len(),
                trailing.len() == i,
                forall|k: int| 0 <= k < i ==> trailing[k]@ == args[k]@,
            decreases args.len() - i,
        {
            trailing.push(String::from_str(args[i]));
            i += 1;
        }
        assert(string_texts(leading@) =~= leading_arguments(device_id@));
        assert(string_texts(trailing@) =~= str_texts(args@));
        Invocation { program: String::from_str("hdc"), leading, trailing }
    }

    /// The executable to spawn.
    pub fn program(&self) -> (name: &str)
        ensures
            name@ == self@.program,
            name@ == program_name(),
    {
        proof {
            use_type_invariant(self);
        }
        self.program.as_str()
    }

    /// The target identifier that the command is directed at.
    pub fn target_id(&self) -> (id: &str)
        ensures
            id@ == self@.target_id(),
    {
        proof {
            use_type_invariant(self);
        }
        self.leading[1].as_str()
    }

    /// The fixed arguments in front: selector flag, target, mode flag.
    pub fn leading(&self) -> (items: &Vec<String>)
        ensures
            string_texts(items@) == self@.leading,
            self@.leading == leading_arguments(self@.target_id()),
    {
        proof {
            use_type_invariant(self);
        }
        &self.leading
    }

    /// The caller's arguments, in the caller's order.
    pub fn trailing(&self) -> (items: &Vec<String>)
        ensures
            string_texts(items@) == self@.trailing,
    {
        &self.trailing
    }

    /// The argument vector handed to the process: leading arguments, then
    /// trailing ones.
    pub fn argv(&self) -> (items: Vec<String>)
        ensures
            string_texts(items@) == self@.argv(),
            self@.argv() == argument_vector(self@.target_id(), self@.trailing),
    {
        proof {
            use_type_invariant(self);
        }
        let mut items: Vec<String> = Vec::new();
        let mut i: usize = 0;
        while i < self.leading.len()
            invariant
                i <= self.leading.len(),
                items.len() == i,
                forall|k: int| 0 <= k < i ==> items[k]@ == self.leading[k]@,
            decreases self.leading.len() - i,
        {
            items.push(self.leading[i].clone());
            i += 1;
        }
        let mut j: usize = 0;
        while j < self.trailing.len()
            invariant
                j <= self.trailing.len(),
                items.len() == self.leading.len() + j,
                forall|k: int| 0 <= k < self.leading.len() ==> items[k]@ == self.leading[k]@,
                forall|k: int| 0 <= k < j ==> items[self.leading.len() + k]@ == self.trailing[k]@,
            decreases self.trailing.len() - j,
        {
            items.push(self.trailing[j].clone());
            j += 1;
        }
        assert(string_texts(items@) =~= self@.argv());
        items
    }
}

} // verus!
