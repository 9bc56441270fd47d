//! Command failures, the remote command runner that callers supply, and the
//! argument checks applied before anything reaches a shell.
use vstd::prelude::*;
use crate::json::JsonValue;
use crate::text::{chars_of, extend, extend_str, string_of};

verus! {

/// A failed command: what went wrong and what the command printed.
#[derive(Debug)]
pub struct CommandFailure {
    pub message: String,
    pub stdout: String,
    pub stderr: String,
    pub code: Option<i32>,
}

pub type CommandResult<T> = Result<T, CommandFailure>;

/// A failure that carries only a message.
pub fn failure(message: String) -> (r: CommandFailure)
    ensures
        r.message == message,
        r.stdout@ == Seq::<char>::empty(),
        r.stderr@ == Seq::<char>::empty(),
        r.code is None,
{
    CommandFailure { message, stdout: String::new(), stderr: String::new(), code: None }
}

/// A failure whose message is the given characters.
pub fn failure_from(message: &[char]) -> (r: CommandFailure)
    ensures
        r.message@ == message@,
        r.stdout@ == Seq::<char>::empty(),
        r.stderr@ == Seq::<char>::empty(),
        r.code is None,
{
    failure(string_of(message))
}

/// A failure whose message is the given text.
pub fn failure_str(message: &str) -> (r: CommandFailure)
    ensures
        r.message@ == message@,
        r.stdout@ == Seq::<char>::empty(),
        r.stderr@ == Seq::<char>::empty(),
        r.code is None,
{
    failure(message.to_owned())
}

/// Runs commands on a managed host. Implementations decide how commands travel
/// (SSH, a local shell, a recording double) and how JSON text is decoded; the
/// library decides which commands to run and what to make of their output.
///
/// Each implementation names, in three relations, which answers it gives: the
/// library's contracts speak of what the runner answered through them, and
/// claim nothing about what those answers are.
pub trait RemoteCommandRunner {
    /// `r` is an answer this runner gives to the command line `command`.
    /// An implementation that names none is given an unknown relation.
    open spec fn command_answer(&self, command: Seq<char>, r: CommandResult<String>) -> bool {
        unknown_relation((1int, command, r))
    }

    /// `r` is an answer this runner gives to the multi-line script `script`.
    open spec fn script_answer(&self, script: Seq<char>, r: CommandResult<String>) -> bool {
        unknown_relation((2int, script, r))
    }

    /// `r` is how this runner decodes the text `text` printed by `label`.
    open spec fn json_decoding(&self, text: Seq<char>, label: Seq<char>, r: CommandResult<JsonValue>) -> bool {
        unknown_relation((3int, text, label, r))
    }

    /// Runs one shell command line and returns its standard output.
    fn run(&self, command: &str) -> (r: CommandResult<String>)
        ensures
            self.command_answer(command@, r),
    ;

    /// Runs a multi-line shell script and returns its standard output.
    fn run_script(&self, script: &str) -> (r: CommandResult<String>)
        ensures
            self.script_answer(script@, r),
    ;

    /// Decodes the JSON document that `label` printed.
    fn parse_json(&self, text: &str, label: &str) -> (r: CommandResult<JsonValue>)
        ensures
            self.json_decoding(text@, label@, r),
    ;

    /// Runs a command that prints one JSON document and decodes it.
    fn run_json(&self, command: &str, label: &str) -> (r: CommandResult<JsonValue>)
        ensures
            match r {
                Err(e) => self.command_answer(command@, Err(e)),
                Ok(_) => false,
            } || exists|text: String| #[trigger] self.command_answer(command@, Ok(text)) && self.json_decoding(
                text@,
                label@,
                r,
            ),
    {
        match self.run(command) {
            Ok(text) => {
                let ghost t = text;
                let r = self.parse_json(text.as_str(), label);
                assert(self.command_answer(command@, Ok(t)) && self.json_decoding(t@, label@, r));
                r
            },
            Err(err) => Err(err),
        }
    }
}

/// `doc` is how `runner` decoded an output it gave to the command line
/// `command`, a JSON document printed by `label`.
pub open spec fn json_reply<R: RemoteCommandRunner>(runner: &R, command: Seq<char>, label: Seq<char>, doc: JsonValue) -> bool {
    exists|text: String| #[trigger] runner.command_answer(command, Ok(text)) && runner.json_decoding(text@, label, Ok(doc))
}

/// `runner` gave a successful output to the command line `command`.
pub open spec fn ran_successfully<R: RemoteCommandRunner>(runner: &R, command: Seq<char>) -> bool {
    exists|out: String| #[trigger] runner.command_answer(command, Ok(out))
}

/// A relation that nobody named: true or false of each argument, and nothing
/// more is known of it. The answers of an implementation that does not name
/// its own relations are described by it.
pub open spec fn unknown_relation<A>(a: A) -> bool {
    (choose|f: spec_fn(A) -> bool| #[trigger] f(a) || !f(a))(a)
}

/// A character allowed in the Kubernetes names that reach kubectl command lines.
pub open spec fn is_kube_char(c: char) -> bool {
    ('a' <= c && c <= 'z') || ('0' <= c && c <= '9') || c == '-' || c == '.'
}

/// A Kubernetes object name: 1 to 253 lowercase letters, digits, `-` and `.`.
pub open spec fn valid_kube_arg(v: Seq<char>) -> bool {
    0 < v.len() <= 253 && forall|i: int| 0 <= i < v.len() ==> is_kube_char(#[trigger] v[i])
}

/// The message of a refused Kubernetes argument.
pub open spec fn kube_arg_message(label: Seq<char>) -> Seq<char> {
    label + " must be a Kubernetes name (lowercase letters, digits, '-' and '.')"@
}

pub fn is_kube_name(v: &[char]) -> (r: bool)
    ensures
        r == valid_kube_arg(v@),
{
    if v.len() == 0 || v.len() > 253 {
        return false;
    }
    let mut i: usize = 0;
    while i < v.len()
        invariant
            i <= v@.len(),
            forall|j: int| 0 <= j < i ==> is_kube_char(#[trigger] v@[j]),
        decreases v@.len() - i,
    {
        let c = v[i];
        if !(('a' <= c && c <= 'z') || ('0' <= c && c <= '9') || c == '-' || c == '.') {
            return false;
        }
        i = i + 1;
    }
    true
}

/// Refuses anything but a Kubernetes name before it is placed on a command line.
pub fn validate_kube_arg(value: &str, label: &str) -> (r: CommandResult<()>)
    ensures
        r is Ok <==> valid_kube_arg(value@),
        r matches Err(e) ==> e.message@ == kube_arg_message(label@),
{
    let v = chars_of(value);
    if is_kube_name(v.as_slice()) {
        Ok(())
    } else {
        let mut m: Vec<char> = Vec::new();
        extend_str(&mut m, label);
        extend_str(&mut m, " must be a Kubernetes name (lowercase letters, digits, '-' and '.')");
        Err(failure_from(m.as_slice()))
    }
}

/// A character that may not appear in a value written into a generated
/// configuration file: control characters, quotes, backquote and `$`.
pub open spec fn is_unsafe_plain_char(c: char) -> bool {
    c < ' ' || c == '\u{7f}' || c == '\'' || c == '"' || c == '`' || c == '$'
}

/// A non-empty value without unsafe characters.
pub open spec fn valid_plain_value(v: Seq<char>) -> bool {
    v.len() > 0 && forall|i: int| 0 <= i < v.len() ==> !is_unsafe_plain_char(#[trigger] v[i])
}

pub open spec fn plain_value_message(label: Seq<char>) -> Seq<char> {
    label + " must be non-empty and free of quotes, backquotes, '$' and control characters"@
}

/// Refuses a value that could break out of the generated file it is written into.
pub fn validate_plain_value(value: &str, label: &str) -> (r: CommandResult<()>)
    ensures
        r is Ok <==> valid_plain_value(value@),
        r matches Err(e) ==> e.message@ == plain_value_message(label@),
{
    let v = chars_of(value);
    let mut ok = v.len() > 0;
    let mut i: usize = 0;
    while i < v.len()
        invariant
            i <= v@.len(),
            ok == (v@.len() > 0 && forall|j: int| 0 <= j < i ==> !is_unsafe_plain_char(#[trigger] v@[j])),
        decreases v@.len() - i,
    {
        let c = v[i];
        if c < ' ' || c == '\u{7f}' || c == '\'' || c == '"' || c == '`' || c == '$' {
            ok = false;
        }
        i = i + 1;
    }
    if ok {
        Ok(())
    } else {
        let mut m: Vec<char> = Vec::new();
        extend_str(&mut m, label);
        extend_str(&mut m, " must be non-empty and free of quotes, backquotes, '$' and control characters");
        Err(failure_from(m.as_slice()))
    }
}

/// A BattleGroup custom resource, by namespace and name.
#[derive(Clone, Debug, PartialEq, Eq)]
pub struct BattlegroupRef {
    pub namespace: String,
    pub name: String,
}

impl View for BattlegroupRef {
    type V = (Seq<char>, Seq<char>);

    open spec fn view(&self) -> (Seq<char>, Seq<char>) {
        (self.namespace@, self.name@)
    }
}

impl BattlegroupRef {
    /// Both the namespace and the name are Kubernetes names.
    pub fn validate(&self) -> (r: CommandResult<()>)
        ensures
            r is Ok <==> valid_kube_arg(self.namespace@) && valid_kube_arg(self.name@),
            r matches Err(e) ==> e.message@ == (if !valid_kube_arg(self.namespace@) {
                kube_arg_message("namespace"@)
            } else {
                kube_arg_message("name"@)
            }),
    {
        match validate_kube_arg(self.namespace.as_str(), "namespace") {
            Err(e) => return Err(e),
            Ok(()) => {},
        }
        validate_kube_arg(self.name.as_str(), "name")
    }
}

/// The message of a failure, as shown to the operator.
pub fn command_error_message(err: &CommandFailure) -> (r: String)
    ensures
        r@ == err.message@,
{
    let mut m: Vec<char> = Vec::new();
    let cs = chars_of(err.message.as_str());
    extend(&mut m, cs.as_slice());
    string_of(m.as_slice())
}

} // verus!
