use vstd::prelude::*;
use crate::error::{Error, ErrorKind};
use crate::helpers::{active_key, active_label_key, sealed_key, sealed_label_key};
use crate::secret::Secret;
use crate::text::{find_char, find_from, join2, lemma_find_from, slice};
use crate::version::naming_error;

verus! {

/// Which members a command is meant for.
#[derive(Clone, Copy, Debug, PartialEq, Eq, Structural)]
pub enum ExecIn {
    Active,
    Standby,
    Sealed,
}

impl ExecIn {
    /// The name of the choice.
    pub open spec fn name(self) -> Seq<char> {
        match self {
            ExecIn::Active => "active"@,
            ExecIn::Standby => "standby"@,
            ExecIn::Sealed => "sealed"@,
        }
    }

    /// The label selector that the chosen members of a cluster of the given flavor match.
    pub open spec fn selector(self, flavor: Seq<char>) -> Seq<char> {
        match self {
            ExecIn::Active => active_key(flavor) + "=true"@,
            ExecIn::Standby => active_key(flavor) + "=false"@,
            ExecIn::Sealed => sealed_key(flavor) + "=true"@,
        }
    }

    /// The name of the choice.
    pub fn to_string(&self) -> (name: String)
        ensures
            name@ == self.name(),
    {
        match self {
            ExecIn::Active => String::from_str("active"),
            ExecIn::Standby => String::from_str("standby"),
            ExecIn::Sealed => String::from_str("sealed"),
        }
    }

    /// The label selector that the chosen members of a cluster of the given flavor match.
    pub fn to_label_selector(&self, flavor: &str) -> (selector: String)
        ensures
            selector@ == self.selector(flavor@),
    {
        match self {
            ExecIn::Active => {
                let key = active_label_key(flavor);
                join2(key.as_str(), "=true")
            },
            ExecIn::Standby => {
                let key = active_label_key(flavor);
                join2(key.as_str(), "=false")
            },
            ExecIn::Sealed => {
                let key = sealed_label_key(flavor);
                join2(key.as_str(), "=true")
            },
        }
    }
}

/// One variable of the environment of a command: its name and its secret value.
pub struct EnvVar {
    pub name: String,
    pub value: Secret,
}

/// The mathematical model of an [`EnvVar`].
pub struct EnvVarView {
    pub name: Seq<char>,
    pub value: Seq<char>,
}

impl View for EnvVar {
    type V = EnvVarView;

    open spec fn view(&self) -> EnvVarView {
        EnvVarView { name: self.name@, value: self.value@ }
    }
}

impl DeepView for EnvVar {
    type V = EnvVarView;

    open spec fn deep_view(&self) -> EnvVarView {
        self@
    }
}

/// The assignments of the first `count` variables, each followed by a blank.
pub open spec fn assignments(env: Seq<EnvVarView>, count: nat) -> Seq<char>
    decreases count,
{
    if count == 0 || count > env.len() {
        Seq::empty()
    } else {
        assignments(env, (count - 1) as nat) + env[count - 1].name + "="@ + env[count - 1].value
            + " "@
    }
}

/// What is written to the shell of a member to run a command: the assignments of the
/// variables, the command, and the line that ends the shell.
pub open spec fn shell_input(env: Seq<EnvVarView>, cmd: Seq<char>) -> Seq<char> {
    assignments(env, env.len()) + cmd + "\nexit\n"@
}

/// Composes what is written to the shell of a member to run `cmd` with the given
/// variables.
pub fn command_line(env: &Vec<EnvVar>, cmd: &str) -> (input: String)
    ensures
        input@ == shell_input(env.deep_view(), cmd@),
{
    let mut input = String::new();
    let mut i: usize = 0;
    while i < env.len()
        invariant
            i <= env.len(),
            input@ == assignments(env.deep_view(), i as nat),
        decreases env.len() - i,
    {
        assert(env.deep_view()[i as int] == env[i as int]@);
        input.append(env[i].name.as_str());
        input.append("=");
        input.append(env[i].value.expose_secret().as_str());
        input.append(" ");
        i = i + 1;
    }
    input.append(cmd);
    input.append("\nexit\n");
    input
}

/// The variable that a text of the form `name=value` assigns: the name is what stands
/// before the first equals sign, the value what stands between it and the next one, or
/// the end. A text without an equals sign assigns nothing.
pub open spec fn assignment_of(text: Seq<char>) -> Option<EnvVarView> {
    let first = find_from(text, '=', 0);
    if first < text.len() {
        Some(
            EnvVarView {
                name: text.subrange(0, first),
                value: text.subrange(first + 1, find_from(text, '=', first + 1)),
            },
        )
    } else {
        None
    }
}

/// Reads a variable from a text of the form `name=value`. A text without an equals sign
/// is refused.
pub fn env_pair(text: &str) -> (pair: Result<EnvVar, Error>)
    ensures
        match pair {
            Ok(variable) => assignment_of(text@) == Some(variable@),
            Err(error) => assignment_of(text@) is None && error@ == naming_error(
                "invalid key=value pair"@,
            ),
        },
{
    let length = text.unicode_len();
    let first = find_char(text, '=', 0);
    proof {
        lemma_find_from(text@, '=', 0);
    }
    if first < length {
        let next = find_char(text, '=', first + 1);
        proof {
            lemma_find_from(text@, '=', first + 1);
        }
        Ok(
            EnvVar {
                name: slice(text, 0, first),
                value: Secret::new(slice(text, first + 1, next)),
            },
        )
    } else {
        Err(Error::new(ErrorKind::Naming, "invalid key=value pair"))
    }
}

} // verus!
