//! Resolving the three configuration values, each given inline or in a file.
use crate::error::{Error, ErrorView};
use vstd::prelude::*;
use vstd::string::*;

verus! {

/// The domain name, given inline or as the path of a file that holds it.
#[derive(Debug, Clone, PartialEq, Eq)]
pub struct Domain {
    pub domain_inline: Option<String>,
    pub domain_file: Option<String>,
}

/// The account's email address, given inline or as the path of a file that holds it.
#[derive(Debug, Clone, PartialEq, Eq)]
pub struct Email {
    pub email_inline: Option<String>,
    pub email_file: Option<String>,
}

/// The API token, given inline or as the path of a file that holds it.
#[derive(Debug, Clone, PartialEq, Eq)]
pub struct Token {
    pub token_inline: Option<String>,
    pub token_file: Option<String>,
}

/// The three inputs as the command line supplied them.
#[derive(Debug, Clone, PartialEq, Eq)]
pub struct CloudflareArgs {
    pub domain: Domain,
    pub email: Email,
    pub token: Token,
}

/// The resolved configuration of one run.
#[derive(Debug, Clone, PartialEq, Eq)]
pub struct Parameters {
    pub domain: String,
    pub email: String,
    pub token: String,
}

/// A [`Parameters`] with each value as a sequence of characters.
pub struct ParametersView {
    pub domain: Seq<char>,
    pub email: Seq<char>,
    pub token: Seq<char>,
}

impl View for Parameters {
    type V = ParametersView;

    open spec fn view(&self) -> ParametersView {
        ParametersView { domain: self.domain@, email: self.email@, token: self.token@ }
    }
}

/// What came of reading one file.
#[derive(Debug, Clone, PartialEq, Eq)]
pub enum FileRead {
    /// Nothing exists at the path.
    Missing,
    /// The file exists but could not be read; the text is the cause.
    Failed(String),
    /// The whole content of the file.
    Content(String),
}

/// What came of reading the file of each input. The entry of an input that was
/// given inline is never looked at.
#[derive(Debug, Clone, PartialEq, Eq)]
pub struct FileReads {
    pub domain: FileRead,
    pub email: FileRead,
    pub token: FileRead,
}

/// `content` without its final newline, if it ends in one. At most one is removed.
pub open spec fn without_final_newline(content: Seq<char>) -> Seq<char> {
    if content.len() > 0 && content.last() == '\n' {
        content.drop_last()
    } else {
        content
    }
}

/// The value that the file at `path` stands for, given what reading it gave.
pub open spec fn file_value(path: Seq<char>, read: FileRead) -> Result<Seq<char>, ErrorView> {
    match read {
        FileRead::Missing => Err(ErrorView::FileNotFound(path)),
        FileRead::Failed(cause) => Err(ErrorView::Io(cause@)),
        FileRead::Content(content) => if without_final_newline(content@).len() == 0 {
            Err(ErrorView::FileIsEmpty(path))
        } else {
            Ok(without_final_newline(content@))
        },
    }
}

/// The value of one input: the inline value as it stands, else the file's.
pub open spec fn input_value(inline: Option<String>, file: Option<String>, read: FileRead) -> Result<
    Seq<char>,
    ErrorView,
> {
    match inline {
        Some(value) => Ok(value@),
        None => file_value(file.unwrap()@, read),
    }
}

/// Whether each input is given inline or by a path.
pub open spec fn args_complete(args: CloudflareArgs) -> bool {
    &&& args.domain.domain_inline.is_some() || args.domain.domain_file.is_some()
    &&& args.email.email_inline.is_some() || args.email.email_file.is_some()
    &&& args.token.token_inline.is_some() || args.token.token_file.is_some()
}

/// The configuration that `args` resolves to: the first input that fails, in the
/// order domain, email, token, decides the error.
pub open spec fn resolved(args: CloudflareArgs, reads: FileReads) -> Result<ParametersView, ErrorView> {
    let domain = input_value(args.domain.domain_inline, args.domain.domain_file, reads.domain);
    let email = input_value(args.email.email_inline, args.email.email_file, reads.email);
    let token = input_value(args.token.token_inline, args.token.token_file, reads.token);
    match (domain, email, token) {
        (Err(e), _, _) => Err(e),
        (Ok(_), Err(e), _) => Err(e),
        (Ok(_), Ok(_), Err(e)) => Err(e),
        (Ok(d), Ok(e), Ok(t)) => Ok(ParametersView { domain: d, email: e, token: t }),
    }
}

/// A result with its value and its error as sequences of characters.
pub open spec fn text_outcome(r: Result<String, Error>) -> Result<Seq<char>, ErrorView> {
    match r {
        Ok(value) => Ok(value@),
        Err(e) => Err(e@),
    }
}

/// A result with its configuration and its error as sequences of characters.
pub open spec fn parameters_outcome(r: Result<Parameters, Error>) -> Result<
    ParametersView,
    ErrorView,
> {
    match r {
        Ok(value) => Ok(value@),
        Err(e) => Err(e@),
    }
}

/// Turns what reading the file at `path` gave into the value it stands for.
///
/// A missing file and an unreadable one fail as such. Of the content exactly
/// one final newline is dropped; if nothing is left the file counts as empty.
pub fn read_file(path: String, read: FileRead) -> (r: Result<String, Error>)
    ensures
        text_outcome(r) == file_value(path@, read),
{
    match read {
        FileRead::Missing => Err(Error::FileNotFound(path)),
        FileRead::Failed(cause) => Err(Error::Io(cause)),
        FileRead::Content(content) => {
            let n: usize = content.as_str().unicode_len();
            if n == 0 {
                return Err(Error::FileIsEmpty(path));
            }
            if content.as_str().get_char(n - 1) != '\n' {
                return Ok(content);
            }
            if n == 1 {
                return Err(Error::FileIsEmpty(path));
            }
            let kept = String::from_str(content.as_str().substring_char(0, n - 1));
            assert(kept@ =~= content@.drop_last());
            Ok(kept)
        },
    }
}

/// Resolves one input: the inline value unchanged when there is one, else the
/// value of the file.
pub fn resolve(inline: Option<String>, file: Option<String>, read: FileRead) -> (r: Result<
    String,
    Error,
>)
    requires
        inline.is_some() || file.is_some(),
    ensures
        text_outcome(r) == input_value(inline, file, read),
{
    match inline {
        Some(value) => Ok(value),
        None => read_file(file.unwrap(), read),
    }
}

/// Resolves the configuration from the arguments and from what reading the
/// named files gave. Inputs are taken in the order domain, email, token, and
/// the first failure ends the resolution.
pub fn parse(args: CloudflareArgs, reads: FileReads) -> (r: Result<Parameters, Error>)
    requires
        args_complete(args),
    ensures
        parameters_outcome(r) == resolved(args, reads),
{
    let domain = match resolve(args.domain.domain_inline, args.domain.domain_file, reads.domain) {
        Ok(value) => value,
        Err(e) => {
            return Err(e);
        },
    };
    let email = match resolve(args.email.email_inline, args.email.email_file, reads.email) {
        Ok(value) => value,
        Err(e) => {
            return Err(e);
        },
    };
    let token = match resolve(args.token.token_inline, args.token.token_file, reads.token) {
        Ok(value) => value,
        Err(e) => {
            return Err(e);
        },
    };
    Ok(Parameters { domain, email, token })
}

/// Inline values pass through unchanged: when all three inputs are given
/// inline, the configuration holds exactly those values, whatever the files say.
pub proof fn lemma_inline_values_unchanged(args: CloudflareArgs, reads: FileReads)
    requires
        args.domain.domain_inline.is_some(),
        args.email.email_inline.is_some(),
        args.token.token_inline.is_some(),
    ensures
        resolved(args, reads) == Ok::<ParametersView, ErrorView>(
            ParametersView {
                domain: args.domain.domain_inline.unwrap()@,
                email: args.email.email_inline.unwrap()@,
                token: args.token.token_inline.unwrap()@,
            },
        ),
{
}

/// A file read never yields an empty value, and never one that still carries
/// the newline that ended the file.
pub proof fn lemma_file_value_is_trimmed(path: Seq<char>, content: String)
    ensures
        match file_value(path, FileRead::Content(content)) {
            Ok(value) => value.len() > 0 && (content@.last() == '\n' ==> value == content@.drop_last())
                && (content@.last() != '\n' ==> value == content@),
            Err(e) => e == ErrorView::FileIsEmpty(path) && (content@.len() == 0 || content@
                == seq!['\n']),
        },
{
    if content@.len() == 1 && content@.last() == '\n' {
        assert(content@ =~= seq!['\n']);
    }
}

} // verus!
