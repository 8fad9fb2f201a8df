use vstd::prelude::*;

verus! {

/// One argument of a youtube-dl command: an option alone (`--add-metadata`),
/// or an option with its input (`--cookie /path/to/cookie`).
#[derive(Clone, Debug)]
pub struct Arg {
    arg: String,
    input: Option<String>,
}

/// The words that an argument contributes to a command line, in order.
pub open spec fn arg_words(flag: Seq<char>, input: Option<Seq<char>>) -> Seq<Seq<char>> {
    match input {
        Some(v) => seq![flag, v],
        None => seq![flag],
    }
}

/// A sequence of strings, each seen as its characters.
pub open spec fn strings_view(s: Seq<String>) -> Seq<Seq<char>> {
    s.map_values(|x: String| x@)
}

/// How an argument reads as text: the flag, then a space and the input if any.
pub open spec fn arg_text(flag: Seq<char>, input: Option<Seq<char>>) -> Seq<char> {
    match input {
        Some(v) => flag + seq![' '] + v,
        None => flag,
    }
}

/// An argument with an input renders as its flag, a space and the input; an
/// argument without one renders as its flag alone.
pub proof fn lemma_rendering(flag: Seq<char>, value: Seq<char>)
    ensures
        arg_text(flag, Some(value)) == flag + seq![' '] + value,
        arg_text(flag, None) == flag,
        arg_words(flag, Some(value)) == seq![flag, value],
        arg_words(flag, None) == seq![flag],
{
}

impl Arg {
    /// The flag, as a sequence of characters.
    pub closed spec fn flag(&self) -> Seq<char> {
        self.arg@
    }

    /// The input that goes with the flag, if any.
    pub closed spec fn input(&self) -> Option<Seq<char>> {
        match self.input {
            Some(s) => Some(s@),
            None => None,
        }
    }

    /// The words this argument contributes to a command line.
    pub open spec fn words(&self) -> Seq<Seq<char>> {
        arg_words(self.flag(), self.input())
    }

    /// An option that takes no input.
    pub fn new(argument: &str) -> (r: Arg)
        ensures
            r.flag() == argument@,
            r.input() == None::<Seq<char>>,
    {
        Arg { arg: argument.to_string(), input: None }
    }

    /// An option together with its input.
    pub fn new_with_arg(argument: &str, input: &str) -> (r: Arg)
        ensures
            r.flag() == argument@,
            r.input() == Some(input@),
    {
        Arg { arg: argument.to_string(), input: Some(input.to_string()) }
    }

    /// The argument as text: `"<flag> <input>"`, or `"<flag>"` alone.
    pub fn to_string(&self) -> (r: String)
        ensures
            r@ == arg_text(self.flag(), self.input()),
    {
        let mut s = self.arg.clone();
        match &self.input {
            Some(v) => {
                proof {
                    reveal_strlit(" ");
                }
                s.append(" ");
                s.append(v.as_str());
            },
            None => {},
        }
        s
    }

    /// Appends the words of this argument to a command line under construction.
    pub(crate) fn push_words(&self, out: &mut Vec<String>)
        ensures
            strings_view(final(out)@) == strings_view(old(out)@) + self.words(),
    {
        let ghost start = strings_view(out@);
        out.push(self.arg.clone());
        match &self.input {
            Some(s) => {
                out.push(s.clone());
                assert(strings_view(out@) =~= start + self.words());
            },
            None => {
                assert(strings_view(out@) =~= start + self.words());
            },
        }
    }
}

} // verus!
