//! A command's arguments as a map from flag to value, read one required
//! argument at a time.

use crate::string_map::{string_views, StringMap};
use std::str::FromStr;
use vstd::prelude::*;
use vstd::string::*;

verus! {

/// The flag-to-value map of the first `n` adjacent pairs of `args`: each
/// argument is a key for the one after it, and a later pair wins.
pub open spec fn adjacent_pairs(args: Seq<Seq<char>>, n: nat) -> Map<Seq<char>, Seq<char>>
    decreases n,
{
    if n == 0 {
        Map::empty()
    } else {
        adjacent_pairs(args, (n - 1) as nat).insert(args[n - 1], args[n as int])
    }
}

/// Maps every argument but the last to the argument that follows it.
pub fn arg_map(args: &[String]) -> (am: StringMap)
    ensures
        am@ == adjacent_pairs(
            string_views(args@),
            if args@.len() == 0 {
                0
            } else {
                (args@.len() - 1) as nat
            },
        ),
{
    let mut am = StringMap::new();
    let mut i: usize = 0;
    while i + 1 < args.len()
        invariant
            i < args.len() || i == 0,
            am@ == adjacent_pairs(string_views(args@), i as nat),
        decreases args.len() - i,
    {
        am.insert(args[i].clone(), args[i + 1].clone());
        i += 1;
    }
    am
}

/// Calls `T::from_str`. Trusted: nothing is claimed of the outcome, which
/// is the type's own business.
#[verifier::external_body]
fn parse<T: FromStr>(text: &str) -> (r: Option<T>) {
    T::from_str(text).ok()
}

/// A failed argument: its flag, and the text that was taken for its value.
#[derive(Debug)]
pub struct ArgParseError {
    arg: String,
    value: String,
}

impl View for ArgParseError {
    type V = (Seq<char>, Seq<char>);

    closed spec fn view(&self) -> (Seq<char>, Seq<char>) {
        (self.arg@, self.value@)
    }
}

impl ArgParseError {
    /// The flag that failed.
    pub fn arg(&self) -> (r: &String)
        ensures
            r@ == self@.0,
    {
        &self.arg
    }

    /// The text that was taken for its value.
    pub fn value(&self) -> (r: &String)
        ensures
            r@ == self@.1,
    {
        &self.value
    }

    /// The error as one message.
    pub fn message(&self) -> (r: String)
        ensures
            r@ == "Failed to parse argument '"@ + self@.0 + "'\n from '"@ + self@.1 + "'"@,
    {
        "Failed to parse argument '".to_owned().concat(self.arg.as_str()).concat(
            "'\n from '",
        ).concat(self.value.as_str()).concat("'")
    }
}

/// A command that is being read: its name, what has gone wrong so far, and
/// whether anything has.
pub struct Command {
    name: String,
    msg: String,
    ok: bool,
}

/// What a missing argument adds to a command's message.
pub open spec fn missing_note(key: Seq<char>) -> Seq<char> {
    " \tMissing required argument '"@ + key + "'\n"@
}

impl Command {
    /// The command's name.
    pub closed spec fn spec_name(&self) -> Seq<char> {
        self.name@
    }

    /// What has gone wrong so far.
    pub closed spec fn spec_msg(&self) -> Seq<char> {
        self.msg@
    }

    /// Whether nothing has gone wrong so far.
    pub closed spec fn spec_ok(&self) -> bool {
        self.ok
    }

    /// Whether every argument asked for so far was there.
    pub fn is_ok(&self) -> (r: bool)
        ensures
            r == self.spec_ok(),
    {
        self.ok
    }

    /// A command named `name` of which nothing has gone wrong.
    pub fn new(name: &str) -> (r: Command)
        ensures
            r.spec_name() == name@,
            r.spec_msg() == Seq::<char>::empty(),
            r.spec_ok(),
    {
        Command { name: name.to_owned(), msg: String::new(), ok: true }
    }

    /// Looks `key` up in `args` and reads its value as a `T`. What `T` makes
    /// of a text is its own business; an absent key always fails.
    fn do_require<T: FromStr>(&self, key: &str, args: &StringMap) -> (r: Result<T, ArgParseError>)
        ensures
            !args@.contains_key(key@) ==> r is Err,
            r matches Err(e) ==> e@ == (key@, "None"@),
    {
        let found = match args.get(&key.to_owned()) {
            Some(text) => parse::<T>(text.as_str()),
            None => None,
        };
        match found {
            Some(t) => Ok(t),
            None => Err(ArgParseError { arg: key.to_owned(), value: "None".to_owned() }),
        }
    }

    /// Settles a required argument: a value passes through; a failure is
    /// noted in the message, marks the command as failed, and passes through.
    pub fn note<T>(&mut self, key: &str, found: Result<T, ArgParseError>) -> (r: Result<
        T,
        ArgParseError,
    >)
        ensures
            final(self).spec_name() == old(self).spec_name(),
            r == found,
            found is Ok ==> *final(self) == *old(self),
            found is Err ==> !final(self).spec_ok() && final(self).spec_msg() == old(self).spec_msg() + missing_note(key@),
    {
        match found {
            Ok(arg) => Ok(arg),
            Err(res) => {
                self.msg.append(" \tMissing required argument '");
                self.msg.append(key);
                self.msg.append("'\n");
                self.ok = false;
                Err(res)
            },
        }
    }

    /// Reads the required argument `key` as a `T`. Where it is absent or no
    /// `T`, the command is marked as failed and the miss is noted.
    pub fn require<T: FromStr>(&mut self, key: &str, args: &StringMap) -> (r: Result<
        T,
        ArgParseError,
    >)
        ensures
            final(self).spec_name() == old(self).spec_name(),
            !args@.contains_key(key@) ==> r is Err,
            r is Ok ==> *final(self) == *old(self),
            r matches Err(e) ==> e@ == (key@, "None"@) && !final(self).spec_ok() && final(self).spec_msg() == old(self).spec_msg() + missing_note(key@),
    {
        let found = self.do_require::<T>(key, args);
        self.note(key, found)
    }

    /// Reads the argument `key` as a `T`, or takes `value` where that
    /// fails. The miss is noted all the same.
    pub fn default<T: FromStr>(&mut self, key: &str, args: &StringMap, value: T) -> (r: T)
        ensures
            final(self).spec_name() == old(self).spec_name(),
            !args@.contains_key(key@) ==> r == value && !final(self).spec_ok() && final(self).spec_msg() == old(self).spec_msg() + missing_note(key@),
            args@.contains_key(key@) ==> *final(self) == *old(self) || (r == value && !final(self).spec_ok() && final(self).spec_msg() == old(self).spec_msg() + missing_note(key@)),
    {
        match self.require(key, args) {
            Ok(arg) => arg,
            Err(_) => value,
        }
    }

    /// Settles what was typed at a prompt for `key`: a value passes
    /// through; where the text was no `T`, the command is marked as failed.
    pub fn typed<T>(&mut self, key: &str, text: &str, read: Option<T>) -> (r: Result<
        T,
        ArgParseError,
    >)
        ensures
            final(self).spec_name() == old(self).spec_name(),
            final(self).spec_msg() == old(self).spec_msg(),
            match read {
                Some(t) => r == Ok::<T, ArgParseError>(t) && *final(self) == *old(self),
                None => !final(self).spec_ok() && (r matches Err(e) && e@ == (key@, text@)),
            },
    {
        match read {
            Some(t) => Ok(t),
            None => {
                self.ok = false;
                Err(ArgParseError { arg: key.to_owned(), value: text.to_owned() })
            },
        }
    }

    /// Reads an argument that may be typed at a prompt instead: `text` is
    /// what was typed for `key`, read as a `T`.
    pub fn hidden<T: FromStr>(&mut self, key: &str, text: &str) -> (r: Result<T, ArgParseError>)
        ensures
            final(self).spec_name() == old(self).spec_name(),
            final(self).spec_msg() == old(self).spec_msg(),
            r is Ok ==> *final(self) == *old(self),
            r matches Err(e) ==> e@ == (key@, text@) && !final(self).spec_ok(),
    {
        let read = parse::<T>(text);
        self.typed(key, text, read)
    }

    /// The message for a command that failed.
    pub fn usage(&self) -> (r: String)
        ensures
            r@ == "Error command '"@ + self.spec_name() + "'\n "@ + self.spec_msg(),
    {
        "Error command '".to_owned().concat(self.name.as_str()).concat("'\n ").concat(
            self.msg.as_str(),
        )
    }
}

} // verus!
