use vstd::prelude::*;

verus! {

use vstd::string::StrSliceExecFns;
use vstd::string::StringExecFns;

/// The update the host should run after the interface exits: through npm
/// or through bun, always to the latest global package.
#[derive(Debug, Clone, Copy, PartialEq, Eq, Structural)]
pub enum UpdateAction {
    NpmGlobalLatest,
    BunGlobalLatest,
}

/// The command and arguments of an update action.
pub open spec fn spec_command_words(a: UpdateAction) -> Seq<Seq<char>> {
    match a {
        UpdateAction::NpmGlobalLatest => seq!["npm"@, "install"@, "-g"@, "@cometix/codex"@],
        UpdateAction::BunGlobalLatest => seq!["bun"@, "install"@, "-g"@, "@cometix/codex"@],
    }
}

/// What shlex::try_join returns for a word list without nul characters.
pub uninterp spec fn shlex_joined(words: Seq<Seq<char>>) -> Seq<char>;

/// Relies on shlex::try_join: quotes each word for a POSIX shell and joins
/// them with single spaces; under default settings it fails exactly when a
/// word holds a nul character.
#[verifier::external_body]
fn shlex_join(words: &Vec<&str>) -> (r: Option<String>)
    ensures
        r matches Some(s) ==> s@ == shlex_joined(words.deep_view()),
        (r is Some) <==> (forall|i: int|
            0 <= i < words.deep_view().len() ==> !(#[trigger] words.deep_view()[i]).contains(
                '\0',
            )),
{
    shlex::try_join(words.iter().copied()).ok()
}

/// Whether the string holds a nul character.
fn str_has_nul(s: &str) -> (b: bool)
    ensures
        b == s@.contains('\0'),
{
    let n = s.unicode_len();
    let mut i: usize = 0;
    while i < n
        invariant
            n == s@.len(),
            0 <= i <= n,
            forall|j: int| 0 <= j < i ==> s@[j] != '\0',
        decreases n - i,
    {
        if s.get_char(i) == '\0' {
            return true;
        }
        i = i + 1;
    }
    proof {
        assert(!s@.contains('\0'));
    }
    false
}

/// The words joined with single spaces, unquoted.
pub open spec fn spec_space_joined(words: Seq<Seq<char>>) -> Seq<char>
    decreases words.len(),
{
    if words.len() == 0 {
        Seq::empty()
    } else if words.len() == 1 {
        words[0]
    } else {
        spec_space_joined(words.drop_last()) + " "@ + words.last()
    }
}

fn join_with_spaces(words: &Vec<&str>) -> (r: String)
    ensures
        r@ == spec_space_joined(words.deep_view()),
{
    let ghost dv = words.deep_view();
    let mut out = String::new();
    let n = words.len();
    let mut i: usize = 0;
    proof {
        assert(dv.take(0) =~= Seq::<Seq<char>>::empty());
    }
    while i < n
        invariant
            dv == words.deep_view(),
            n == words@.len(),
            n == dv.len(),
            0 <= i <= n,
            out@ == spec_space_joined(dv.take(i as int)),
            forall|j: int| 0 <= j < n ==> #[trigger] dv[j] == words@[j]@,
        decreases n - i,
    {
        if i > 0 {
            out.append(" ");
        }
        out.append(words[i]);
        proof {
            let t1 = dv.take(i as int + 1);
            assert(t1.drop_last() =~= dv.take(i as int));
            assert(t1.last() == dv[i as int]);
            if i == 0 {
                assert(t1[0] == dv[0]);
                assert(out@ =~= spec_space_joined(t1));
            } else {
                assert(out@ =~= spec_space_joined(t1));
            }
        }
        i = i + 1;
    }
    proof {
        assert(dv.take(n as int) =~= dv);
    }
    out
}

impl UpdateAction {
    /// The command and its arguments for running the update.
    pub fn command_args(self) -> (r: (&'static str, Vec<&'static str>))
        ensures
            r.0@ == spec_command_words(self)[0],
            r.1@.len() == 3,
            r.1@[0]@ == spec_command_words(self)[1],
            r.1@[1]@ == spec_command_words(self)[2],
            r.1@[2]@ == spec_command_words(self)[3],
    {
        let mut args: Vec<&'static str> = Vec::new();
        args.push("install");
        args.push("-g");
        args.push("@cometix/codex");
        match self {
            UpdateAction::NpmGlobalLatest => ("npm", args),
            UpdateAction::BunGlobalLatest => ("bun", args),
        }
    }

    /// The update command as one shell-quoted line: the words joined by
    /// shlex, or, should quoting fail on a nul character, joined plainly
    /// with spaces.
    pub fn command_str(self) -> (r: String)
        ensures
            r@ == if (forall|i: int|
                0 <= i < spec_command_words(self).len() ==> !(#[trigger] spec_command_words(
                    self,
                )[i]).contains('\0')) {
                shlex_joined(spec_command_words(self))
            } else {
                spec_space_joined(spec_command_words(self))
            },
    {
        let (command, args) = self.command_args();
        let mut words: Vec<&str> = Vec::new();
        words.push(command);
        words.push(args[0]);
        words.push(args[1]);
        words.push(args[2]);
        proof {
            assert(words.deep_view() =~= spec_command_words(self));
        }
        let mut any_nul = false;
        if str_has_nul(words[0]) {
            any_nul = true;
        }
        if str_has_nul(words[1]) {
            any_nul = true;
        }
        if str_has_nul(words[2]) {
            any_nul = true;
        }
        if str_has_nul(words[3]) {
            any_nul = true;
        }
        if any_nul {
            return join_with_spaces(&words);
        }
        proof {
            assert(forall|i: int|
                0 <= i < words.deep_view().len() ==> !(#[trigger] words.deep_view()[i]).contains(
                    '\0',
                ));
        }
        match shlex_join(&words) {
            Some(s) => s,
            None => join_with_spaces(&words),
        }
    }
}

/// Which update to run, from the two environment flags: npm when the npm
/// flag is set, bun when only the bun flag is set, npm when neither is.
pub fn detect_update_action(managed_by_npm: bool, managed_by_bun: bool) -> (r: Option<
    UpdateAction,
>)
    ensures
        r == Some(
            if managed_by_npm {
                UpdateAction::NpmGlobalLatest
            } else if managed_by_bun {
                UpdateAction::BunGlobalLatest
            } else {
                UpdateAction::NpmGlobalLatest
            },
        ),
{
    if managed_by_npm {
        Some(UpdateAction::NpmGlobalLatest)
    } else if managed_by_bun {
        Some(UpdateAction::BunGlobalLatest)
    } else {
        Some(UpdateAction::NpmGlobalLatest)
    }
}

} // verus!
