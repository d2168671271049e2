//! The one-shot `--install` / `--remove` mode: registering this launcher with
//! the daemon, or clearing the registration, without opening a window.

use vstd::prelude::*;
use crate::json::{distinct_names, member, JsonValue};
use crate::status::{
    activator_command, get_activator_command, get_platform_path, has_activation, platform_path,
    supports_activation, Platform,
};

verus! {

/// What the process was started to do.
#[derive(Debug, Clone, Copy, PartialEq, Eq, Structural)]
pub enum Mode {
    /// Register this launcher, then exit.
    Install,
    /// Clear the registration, then exit.
    Remove,
    /// Run the UI.
    Run,
}

/// The mode that the command line `args` (program name first) asks for.
pub open spec fn mode_of(args: Seq<Seq<char>>) -> Mode {
    if args.len() == 2 && args[1] == "--install"@ {
        Mode::Install
    } else if args.len() == 2 && args[1] == "--remove"@ {
        Mode::Remove
    } else {
        Mode::Run
    }
}

pub fn parse_mode(args: &Vec<String>) -> (r: Mode)
    ensures
        r == mode_of(args@.map_values(|a: String| a@)),
{
    let ghost words = args@.map_values(|a: String| a@);
    if args.len() == 2 {
        assert(words[1] == args@[1]@);
        if args[1] == "--install".to_string() {
            return Mode::Install;
        }
        if args[1] == "--remove".to_string() {
            return Mode::Remove;
        }
    }
    Mode::Run
}

/// Why the registration could not be changed.
#[derive(Debug, Clone, Copy, PartialEq, Eq, Structural)]
pub enum ManageError {
    /// A running daemon that predates registration can only be changed by
    /// editing its settings, which it would overwrite: it must be stopped.
    /// Holds whether the request was to install.
    DaemonRunning(bool),
}

impl ManageError {
    pub open spec fn text(self) -> Seq<char> {
        match self {
            ManageError::DaemonRunning(true) => "Unable to Install, Please stop the GoXLR Utility first."@,
            ManageError::DaemonRunning(false) => "Unable to Remove, Please stop the GoXLR Utility first."@,
        }
    }

    pub fn message(&self) -> (r: String)
        ensures
            r@ == self.text(),
    {
        match self {
            ManageError::DaemonRunning(true) => "Unable to Install, Please stop the GoXLR Utility first.".to_string(),
            ManageError::DaemonRunning(false) => "Unable to Remove, Please stop the GoXLR Utility first.".to_string(),
        }
    }
}

/// The launcher path that a registration change sets: this executable when
/// installing, none when removing.
pub open spec fn requested_path(install: bool, exe: Seq<char>) -> Option<Seq<char>> {
    if install {
        Some(exe)
    } else {
        None
    }
}

/// The command to send to a running daemon, given its reply to the status
/// query (nothing where none came): the registration change where the daemon
/// supports it.
pub fn manage_command(
    install: bool,
    status: Option<&JsonValue>,
    exe: &String,
    platform: Platform,
) -> (r: Result<String, ManageError>)
    ensures
        match status {
            Some(s) if has_activation(*s) => r matches Ok(c) && c@ == activator_command(
                platform,
                requested_path(install, exe@),
            ),
            _ => r == Err::<String, ManageError>(ManageError::DaemonRunning(install)),
        },
{
    let supported = match status {
        Some(s) => supports_activation(s),
        None => false,
    };
    if !supported {
        return Err(ManageError::DaemonRunning(install));
    }
    if install {
        Ok(get_activator_command(platform, Some(exe)))
    } else {
        Ok(get_activator_command(platform, None))
    }
}

/// The value that the daemon's settings store for the launcher path.
pub open spec fn activate_value(v: JsonValue, install: bool, exe: Seq<char>, platform: Platform) -> bool {
    if install {
        v matches JsonValue::String(s) && s@ == platform_path(platform, exe)
    } else {
        v is Null
    }
}

/// `out` is `members` with a member named `key` set: `key` now names a
/// member, and every other name looks up as before.
pub open spec fn set_member(
    members: Seq<(String, JsonValue)>,
    out: Seq<(String, JsonValue)>,
    key: Seq<char>,
) -> bool {
    &&& member(out, key) is Some
    &&& forall|k: Seq<char>| k != key ==> member(out, k) == member(members, k)
}

/// The daemon's settings with the launcher path changed; nothing where the
/// settings are neither an object nor null (an empty file's placeholder).
pub fn with_activator(settings: JsonValue, install: bool, exe: &String, platform: Platform) -> (r:
    Option<JsonValue>)
    ensures
        (settings is Object || settings is Null) <==> r is Some,
        r matches Some(v) ==> {
            &&& v matches JsonValue::Object(out) && set_member(
                match settings {
                    JsonValue::Object(m) => m@,
                    _ => Seq::empty(),
                },
                out@,
                "activate"@,
            )
            &&& activate_value(v.field("activate"@)->0, install, exe@, platform)
            &&& settings.names_distinct() ==> v.names_distinct()
        },
{
    let mut members = match settings {
        JsonValue::Object(m) => m,
        JsonValue::Null => Vec::new(),
        _ => return None,
    };
    let value = if install {
        JsonValue::String(get_platform_path(platform, exe))
    } else {
        JsonValue::Null
    };
    let ghost before = members@;
    let key = "activate".to_string();
    let n = members.len();
    let mut i: usize = 0;
    assert(before.subrange(0, n as int) =~= before);
    while i < n
        invariant
            n == members@.len(),
            members@ == before,
            i <= n,
            key@ == "activate"@,
            forall|j: int| 0 <= j < i ==> members@[j].0@ != key@,
        ensures
            i < n ==> members@[i as int].0@ == key@,
            forall|j: int| 0 <= j < i ==> members@[j].0@ != key@,
            i <= n,
        decreases n - i,
    {
        if members[i].0 == key {
            break;
        }
        i = i + 1;
    }
    proof {
        lemma_member_skip(before, i as int, key@);
    }
    if i < n {
        let (name, _) = members.remove(i);
        members.insert(i, (name, value));
        proof {
            lemma_member_replace(before, members@, i as int, key@);
            assert forall|j: int| 0 <= j < n implies members@[j].0@ == before[j].0@ by {}
        }
    } else {
        members.push((key, value));
        proof {
            lemma_member_append(before, members@, "activate"@);
            if distinct_names(before) {
                assert forall|a: int, b: int| 0 <= a < b < members@.len() implies members@[a].0@
                    != members@[b].0@ by {
                    if b == n {
                        assert(members@[a] == before[a]);
                    } else {
                        assert(members@[a] == before[a]);
                        assert(members@[b] == before[b]);
                    }
                }
            }
        }
    }
    Some(JsonValue::Object(members))
}

/// Looking past members whose names differ from `key` changes nothing.
proof fn lemma_member_skip(members: Seq<(String, JsonValue)>, i: int, key: Seq<char>)
    requires
        0 <= i <= members.len(),
        forall|j: int| 0 <= j < i ==> members[j].0@ != key,
    ensures
        member(members, key) == member(members.skip(i), key),
    decreases i,
{
    if i > 0 {
        let rest = members.skip(1);
        assert(rest.skip(i - 1) =~= members.skip(i));
        assert forall|j: int| 0 <= j < i - 1 implies rest[j].0@ != key by {
            assert(rest[j] == members[j + 1]);
        }
        lemma_member_skip(rest, i - 1, key);
        assert(members.drop_first() =~= rest);
        assert(members[0].0@ != key);
    } else {
        assert(members.skip(0) =~= members);
    }
}

proof fn lemma_member_replace(
    before: Seq<(String, JsonValue)>,
    after: Seq<(String, JsonValue)>,
    i: int,
    key: Seq<char>,
)
    requires
        0 <= i < before.len(),
        after.len() == before.len(),
        before[i].0@ == key,
        after[i].0@ == key,
        forall|j: int| 0 <= j < before.len() && j != i ==> after[j] == before[j],
        forall|j: int| 0 <= j < i ==> before[j].0@ != key,
    ensures
        member(after, key) == Some(after[i].1),
        forall|k: Seq<char>| k != key ==> member(after, k) == member(before, k),
    decreases i,
{
    if i == 0 {
        assert(after.drop_first() =~= before.drop_first());
        assert forall|k: Seq<char>| k != key implies member(after, k) == member(before, k) by {
            assert(after[0].0@ != k);
            assert(before[0].0@ != k);
        }
    } else {
        let b = before.drop_first();
        let a = after.drop_first();
        assert forall|j: int| 0 <= j < b.len() && j != i - 1 implies a[j] == b[j] by {
            assert(a[j] == after[j + 1]);
        }
        assert forall|j: int| 0 <= j < i - 1 implies b[j].0@ != key by {
            assert(b[j] == before[j + 1]);
        }
        lemma_member_replace(b, a, i - 1, key);
        assert(before[0].0@ != key);
        assert forall|k: Seq<char>| k != key implies member(after, k) == member(before, k) by {
            assert(after[0] == before[0]);
            assert(member(a, k) == member(b, k));
        }
    }
}

proof fn lemma_member_append(
    before: Seq<(String, JsonValue)>,
    after: Seq<(String, JsonValue)>,
    key: Seq<char>,
)
    requires
        after.len() == before.len() + 1,
        after[before.len() as int].0@ == key,
        forall|j: int| 0 <= j < before.len() ==> after[j] == before[j],
        forall|j: int| 0 <= j < before.len() ==> before[j].0@ != key,
    ensures
        member(after, key) == Some(after[before.len() as int].1),
        forall|k: Seq<char>| k != key ==> member(after, k) == member(before, k),
    decreases before.len(),
{
    if before.len() == 0 {
        assert forall|k: Seq<char>| k != key implies member(after, k) == member(before, k) by {
            assert(after.drop_first().len() == 0);
            assert(after[0].0@ != k);
            assert(member(after.drop_first(), k) is None);
        }
    } else {
        let b = before.drop_first();
        let a = after.drop_first();
        assert forall|j: int| 0 <= j < b.len() implies a[j] == b[j] && b[j].0@ != key by {
            assert(a[j] == after[j + 1]);
            assert(b[j] == before[j + 1]);
        }
        assert(a[b.len() as int] == after[before.len() as int]);
        lemma_member_append(b, a, key);
        assert(before[0].0@ != key);
        assert forall|k: Seq<char>| k != key implies member(after, k) == member(before, k) by {
            assert(after[0] == before[0]);
            assert(member(a, k) == member(b, k));
        }
    }
}

} // verus!
