use vstd::prelude::*;

use crate::arg::{strings_view, Arg};
use crate::error::YoutubeDLError;
use std::path::PathBuf;
use std::string::FromUtf8Error;

verus! {

#[verifier::external_type_specification]
#[verifier::external_body]
pub struct ExPathBuf(std::path::PathBuf);

/// Relies on PathBuf's Clone: the copy names the same path.
pub assume_specification[ <std::path::PathBuf as Clone>::clone ](p: &std::path::PathBuf) -> (r:
    std::path::PathBuf)
    ensures
        r == *p,
;

/// The name of the executable that a job launches.
pub const YOUTUBE_DL_COMMAND: &'static str = "youtube-dl";

/// The environment variable set for the tool, so that it writes UTF-8.
pub const LOCALE_VAR: &'static str = "LC_ALL";

/// The value given to `LOCALE_VAR`.
pub const LOCALE_VALUE: &'static str = "en_US.UTF-8";

/// The text that `String::from_utf8` decodes from the bytes, or `None` where
/// they are not valid UTF-8.
pub uninterp spec fn utf8_text(b: Seq<u8>) -> Option<Seq<char>>;

/// Relies on String::from_utf8: `Ok` with the decoded text exactly when the
/// bytes are valid UTF-8, and no bytes decode to the empty text.
#[verifier::external_body]
fn decode_utf8(bytes: Vec<u8>) -> (r: Result<String, FromUtf8Error>)
    ensures
        match r {
            Ok(s) => utf8_text(bytes@) == Some(s@),
            Err(_) => utf8_text(bytes@) is None,
        },
        bytes@.len() == 0 ==> (r is Ok && r->Ok_0@.len() == 0),
{
    String::from_utf8(bytes)
}

/// What a finished process of the tool reported: whether it exited
/// successfully, and the bytes it wrote to standard output and standard error.
pub struct ProcessOutput {
    pub success: bool,
    pub stdout: Vec<u8>,
    pub stderr: Vec<u8>,
}

/// The stream whose text a finished process is reported with: standard output
/// on success, standard error on failure.
pub open spec fn captured(out: ProcessOutput) -> Seq<u8> {
    if out.success {
        out.stdout@
    } else {
        out.stderr@
    }
}

/// The result of a successful job: the directory the tool ran in and what it
/// wrote to standard output.
#[derive(Clone, Debug)]
pub struct YoutubeDLResult {
    path: PathBuf,
    output: String,
}

impl YoutubeDLResult {
    /// The directory the tool ran in.
    pub closed spec fn dir(&self) -> PathBuf {
        self.path
    }

    /// What the tool wrote to standard output.
    pub closed spec fn text(&self) -> Seq<char> {
        self.output@
    }

    /// A result for the directory, with no output yet.
    fn new(path: &PathBuf) -> (r: YoutubeDLResult)
        ensures
            r.dir() == *path,
            r.text() == Seq::<char>::empty(),
    {
        YoutubeDLResult { path: path.clone(), output: String::new() }
    }

    /// What the tool wrote to standard output.
    pub fn output(&self) -> (r: &str)
        ensures
            r@ == self.text(),
    {
        self.output.as_str()
    }

    /// The directory the tool ran in.
    pub fn output_dir(&self) -> (r: &PathBuf)
        ensures
            *r == self.dir(),
    {
        &self.path
    }
}

/// The words that a list of arguments contributes to a command line, in order.
pub open spec fn args_words(args: Seq<Arg>) -> Seq<Seq<char>>
    decreases args.len(),
{
    if args.len() == 0 {
        Seq::empty()
    } else {
        args_words(args.drop_last()) + args.last().words()
    }
}

/// One download job: the directory the tool runs in, the arguments passed to
/// it, and the links it is asked to fetch.
#[derive(Clone, Debug)]
pub struct YoutubeDL {
    path: PathBuf,
    links: Vec<String>,
    args: Vec<Arg>,
}

impl YoutubeDL {
    /// The directory the tool runs in.
    pub closed spec fn dir(&self) -> PathBuf {
        self.path
    }

    /// The arguments, in the order they are passed.
    pub closed spec fn arg_list(&self) -> Seq<Arg> {
        self.args@
    }

    /// The links, in the order they are passed.
    pub closed spec fn link_list(&self) -> Seq<Seq<char>> {
        strings_view(self.links@)
    }

    /// The words passed to the tool: each argument's flag and input in order,
    /// then each link.
    pub open spec fn command_line(&self) -> Seq<Seq<char>> {
        args_words(self.arg_list()) + self.link_list()
    }

    /// A job for a prepared download directory, with any number of links.
    pub fn new_multiple_links(dl_path: PathBuf, args: Vec<Arg>, links: Vec<String>) -> (r:
        YoutubeDL)
        ensures
            r.dir() == dl_path,
            r.arg_list() == args@,
            r.link_list() == strings_view(links@),
    {
        YoutubeDL { path: dl_path, links, args }
    }

    /// A job for a prepared download directory with one link, which may be
    /// `""` where nothing is to be downloaded.
    pub fn new(dl_path: PathBuf, args: Vec<Arg>, link: &str) -> (r: YoutubeDL)
        ensures
            r.dir() == dl_path,
            r.arg_list() == args@,
            r.link_list() == seq![link@],
    {
        let links = vec![link.to_string()];
        let r = YoutubeDL::new_multiple_links(dl_path, args, links);
        assert(r.link_list() =~= seq![link@]);
        r
    }

    /// The directory the tool is to run in.
    pub fn directory(&self) -> (r: &PathBuf)
        ensures
            *r == self.dir(),
    {
        &self.path
    }

    /// The arguments to launch the tool with.
    pub fn command_args(&self) -> (r: Vec<String>)
        ensures
            strings_view(r@) == self.command_line(),
    {
        let mut r: Vec<String> = Vec::new();
        let mut i: usize = 0;
        assert(strings_view(r@) =~= args_words(self.args@.take(0)));
        while i < self.args.len()
            invariant
                0 <= i <= self.args@.len(),
                strings_view(r@) == args_words(self.args@.take(i as int)),
            decreases self.args@.len() - i,
        {
            self.args[i].push_words(&mut r);
            assert(self.args@.take(i + 1).drop_last() =~= self.args@.take(i as int));
            i = i + 1;
        }
        assert(self.args@.take(i as int) =~= self.args@);
        let ghost words = args_words(self.args@);
        let mut j: usize = 0;
        assert(strings_view(r@) =~= words + strings_view(self.links@.take(0)));
        while j < self.links.len()
            invariant
                0 <= j <= self.links@.len(),
                strings_view(r@) == words + strings_view(self.links@.take(j as int)),
            decreases self.links@.len() - j,
        {
            let ghost prev = r@;
            r.push(self.links[j].clone());
            assert(strings_view(r@) =~= strings_view(prev).push(self.links@[j as int]@));
            assert(strings_view(self.links@.take(j + 1)) =~= strings_view(
                self.links@.take(j as int),
            ).push(self.links@[j as int]@));
            assert(strings_view(r@) =~= words + strings_view(self.links@.take(j + 1)));
            j = j + 1;
        }
        assert(self.links@.take(j as int) =~= self.links@);
        r
    }

    /// Reports a finished run from whether it succeeded and the decoded text of
    /// the stream it is reported with.
    pub fn report(&self, success: bool, text: Result<String, FromUtf8Error>) -> (r: Result<
        YoutubeDLResult,
        YoutubeDLError,
    >)
        ensures
            match text {
                Err(e) => r matches Err(YoutubeDLError::UTF8Error(e2)) && e2 == e,
                Ok(s) => if success {
                    r matches Ok(res) && res.dir() == self.dir() && res.text() == s@
                } else {
                    r matches Err(YoutubeDLError::Failure(m)) && m@ == s@
                },
            },
    {
        match text {
            Err(e) => Err(YoutubeDLError::UTF8Error(e)),
            Ok(s) => {
                if success {
                    let mut result = YoutubeDLResult::new(&self.path);
                    result.output = s;
                    Ok(result)
                } else {
                    Err(YoutubeDLError::Failure(s))
                }
            },
        }
    }

    /// Classifies a run of the tool: the launch error where it could not be
    /// started, else what it wrote to standard output on success and to
    /// standard error on failure, decoded as UTF-8.
    pub fn download(&self, run: Result<ProcessOutput, std::io::Error>) -> (r: Result<
        YoutubeDLResult,
        YoutubeDLError,
    >)
        ensures
            match run {
                Err(e) => r matches Err(YoutubeDLError::IOError(e2)) && e2 == e,
                Ok(out) => match utf8_text(captured(out)) {
                    None => r matches Err(YoutubeDLError::UTF8Error(_)),
                    Some(t) => if out.success {
                        r matches Ok(res) && res.dir() == self.dir() && res.text() == t
                    } else {
                        r matches Err(YoutubeDLError::Failure(m)) && m@ == t
                    },
                },
            },
    {
        match run {
            Err(e) => Err(YoutubeDLError::IOError(e)),
            Ok(out) => {
                let ProcessOutput { success, stdout, stderr } = out;
                let text = if success {
                    decode_utf8(stdout)
                } else {
                    decode_utf8(stderr)
                };
                self.report(success, text)
            },
        }
    }
}

} // verus!
