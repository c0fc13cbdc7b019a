//! The outside programs that the build tasks run: their names and the
//! arguments they are given.
use std::borrow::Cow;
use vstd::prelude::*;
use vstd::utf8::is_ascii_chars;

verus! {

/// An outside program to run, by the name under which it is found, with
/// the arguments it is given, if any.
#[derive(Debug)]
pub struct GlobalCommand<'a> {
    name: Cow<'a, str>,
    pub args: Option<Vec<Cow<'a, str>>>,
}

/// The lower-case form of a string, as `str::to_lowercase` computes it
/// (Unicode's lower-case mapping).
pub uninterp spec fn lowercase(s: Seq<char>) -> Seq<char>;

/// The lower-case form of one ASCII character.
pub open spec fn ascii_lower_char(c: char) -> char {
    if 'A' <= c <= 'Z' {
        ((c as int) + 32) as char
    } else {
        c
    }
}

/// The lower-case form of an ASCII string: capitals become small letters,
/// every other character stays.
pub open spec fn ascii_lowercase(s: Seq<char>) -> Seq<char> {
    s.map_values(|c: char| ascii_lower_char(c))
}

/// Calls `str::to_lowercase`. Its result is named `lowercase`; on ASCII
/// input, which Unicode maps as ASCII does, it turns each capital letter
/// into the small one and keeps every other character.
#[verifier::external_body]
fn to_lowercase(s: &str) -> (res: String)
    ensures
        res@ == lowercase(s@),
        is_ascii_chars(s@) ==> res@ == ascii_lowercase(s@),
{
    s.to_lowercase()
}

/// The program that runs containers when none is configured.
pub const DEFAULT_CONTAINER_RUNTIME: &'static str = "docker";

impl<'a> GlobalCommand<'a> {
    /// The name under which the program is run.
    pub closed spec fn spec_name(&self) -> Seq<char> {
        self.name@
    }

    /// The arguments the program is given, if the command has any.
    pub closed spec fn spec_args(&self) -> Option<Seq<Seq<char>>> {
        match self.args {
            None => None,
            Some(args) => Some(args@.map_values(|a: Cow<'a, str>| a@)),
        }
    }

    /// A command that runs the program `name` with no arguments.
    pub fn new(name: Cow<'a, str>) -> (cmd: Self)
        ensures
            cmd.spec_name() == name@,
            cmd.spec_args() is None,
    {
        Self { name, args: None }
    }

    /// Gives the command the arguments `args`, or takes its arguments away
    /// where `args` is `None`; the name stays.
    pub fn set_args(&mut self, args: Option<Vec<Cow<'a, str>>>)
        ensures
            final(self).spec_name() == old(self).spec_name(),
            final(self).spec_args() == (match args {
                None => None,
                Some(v) => Some(v@.map_values(|a: Cow<'a, str>| a@)),
            }),
    {
        self.args = args;
    }

    /// Returns the name under which the program is run.
    pub fn name(&self) -> (name: &str)
        ensures
            name@ == self.spec_name(),
    {
        match &self.name {
            Cow::Borrowed(b) => *b,
            Cow::Owned(o) => o.as_str(),
        }
    }

    /// Returns what running the command hands to the operating system: the
    /// program, and its arguments in order (none where the command has
    /// none).
    pub fn invocation(&self) -> (inv: (&str, Vec<&str>))
        ensures
            inv.0@ == self.spec_name(),
            self.spec_args() is None ==> inv.1@.len() == 0,
            self.spec_args() matches Some(args) ==> {
                &&& inv.1@.len() == args.len()
                &&& forall|i: int| 0 <= i < args.len() ==> #[trigger] inv.1@[i]@ == args[i]
            },
    {
        let program = self.name();
        let mut out: Vec<&str> = Vec::new();
        match &self.args {
            None => {},
            Some(args) => {
                let mut i: usize = 0;
                while i < args.len()
                    invariant
                        i <= args@.len(),
                        out@.len() == i,
                        forall|j: int| 0 <= j < i ==> #[trigger] out@[j]@ == args@[j]@,
                    decreases args@.len() - i,
                {
                    let arg: &str = match &args[i] {
                        Cow::Borrowed(b) => *b,
                        Cow::Owned(o) => o.as_str(),
                    };
                    out.push(arg);
                    i = i + 1;
                }
            },
        }
        (program, out)
    }
}

fn clone_cow<'a>(c: &Cow<'a, str>) -> (r: Cow<'a, str>)
    ensures
        r@ == c@,
{
    match c {
        Cow::Borrowed(b) => Cow::Borrowed(*b),
        Cow::Owned(o) => Cow::Owned(o.clone()),
    }
}

impl<'a> Clone for GlobalCommand<'a> {
    fn clone(&self) -> (cmd: Self)
        ensures
            cmd.spec_name() == self.spec_name(),
            cmd.spec_args() == self.spec_args(),
    {
        let args = match &self.args {
            None => None,
            Some(args) => {
                let mut out: Vec<Cow<'a, str>> = Vec::new();
                let mut i: usize = 0;
                while i < args.len()
                    invariant
                        i <= args@.len(),
                        out@.len() == i,
                        forall|j: int| 0 <= j < i ==> #[trigger] out@[j]@ == args@[j]@,
                    decreases args@.len() - i,
                {
                    out.push(clone_cow(&args[i]));
                    i = i + 1;
                }
                assert(out@.map_values(|a: Cow<'a, str>| a@) =~= args@.map_values(
                    |a: Cow<'a, str>| a@,
                ));
                Some(out)
            },
        };
        GlobalCommand { name: clone_cow(&self.name), args }
    }
}

impl GlobalCommand<'static> {
    /// The command named after an identifier: it runs the program whose name
    /// is the identifier in lower case.
    pub fn from_identifier(ident: &str) -> (cmd: Self)
        ensures
            cmd.spec_name() == lowercase(ident@),
            is_ascii_chars(ident@) ==> cmd.spec_name() == ascii_lowercase(ident@),
            cmd.spec_args() is None,
    {
        Self::new(Cow::Owned(to_lowercase(ident)))
    }

    /// The command that runs containers: the configured program where one
    /// is configured, else `docker`, in lower case, as every command is
    /// run under the lower-case form of the name it is given.
    pub fn container_runtime(configured: Option<String>) -> (cmd: Self)
        ensures
            ({
                let given = match configured {
                    Some(name) => name@,
                    None => DEFAULT_CONTAINER_RUNTIME@,
                };
                &&& cmd.spec_name() == lowercase(given)
                &&& is_ascii_chars(given) ==> cmd.spec_name() == ascii_lowercase(given)
            }),
            cmd.spec_args() is None,
    {
        match configured {
            Some(name) => Self::new(Cow::Owned(to_lowercase(name.as_str()))),
            None => Self::new(Cow::Owned(to_lowercase(DEFAULT_CONTAINER_RUNTIME))),
        }
    }
}

} // verus!
