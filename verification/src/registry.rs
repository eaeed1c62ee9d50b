//! The command registry and the authorized-user set.
//!
//! Triggers (`!`-prefixed tokens) map to handlers; the mapping is built once
//! at startup and only read afterwards. The authorized-user set holds the
//! lower-cased names loaded from the startup configuration.

use vstd::prelude::*;
use crate::text;

verus! {

/// A unit of behavior bound to exactly one trigger at registration time.
#[derive(Clone, Copy, PartialEq, Eq, Structural, Debug)]
pub enum Command {
    /// Unpause playback.
    Play,
    /// Pause playback.
    Pause,
    /// Seek backward by the given number of seconds.
    Rewind,
    /// Seek forward by the given number of seconds.
    Forward,
    /// Report the playback position.
    Pos,
    /// Select a subtitle track.
    Sub,
    /// Select an audio track.
    Aud,
    /// Set or report the volume.
    Vol,
    /// Tell a joke.
    Joke,
}

/// The set of authorized sender names, lower-cased at load time.
#[verifier::external_body]
pub struct UserSet {
    inner: hashbrown::HashSet<String>,
}

/// What a `UserSet` holds.
pub uninterp spec fn user_set_contents(s: &UserSet) -> Set<Seq<char>>;

impl View for UserSet {
    type V = Set<Seq<char>>;

    open spec fn view(&self) -> Set<Seq<char>> {
        user_set_contents(self)
    }
}

impl UserSet {
    /// Relies on hashbrown::HashSet::new: the new set is empty.
    #[verifier::external_body]
    pub fn new() -> (s: UserSet)
        ensures
            user_set_contents(&s) == Set::<Seq<char>>::empty(),
    {
        UserSet { inner: hashbrown::HashSet::new() }
    }

    /// Relies on hashbrown::HashSet::insert: afterwards the set holds the
    /// given name besides everything it held.
    #[verifier::external_body]
    pub fn insert(&mut self, name: String)
        ensures
            user_set_contents(final(self)) == user_set_contents(old(self)).insert(name@),
    {
        self.inner.insert(name);
    }

    /// Relies on hashbrown::HashSet::contains: exact membership.
    #[verifier::external_body]
    pub fn contains(&self, name: &str) -> (r: bool)
        ensures
            r == user_set_contents(self).contains(name@),
    {
        self.inner.contains(name)
    }
}

/// The mapping from trigger to handler: keys unique, built once at startup.
#[verifier::external_body]
pub struct CommandRegistry {
    inner: hashbrown::HashMap<String, Command>,
}

/// What a `CommandRegistry` maps.
pub uninterp spec fn registry_contents(r: &CommandRegistry) -> Map<Seq<char>, Command>;

/// The mapping with no triggers bound.
pub open spec fn empty_registry() -> Map<Seq<char>, Command> {
    Map::empty()
}

impl View for CommandRegistry {
    type V = Map<Seq<char>, Command>;

    open spec fn view(&self) -> Map<Seq<char>, Command> {
        registry_contents(self)
    }
}

impl CommandRegistry {
    /// Relies on hashbrown::HashMap::new: the new map is empty.
    #[verifier::external_body]
    pub fn new() -> (r: CommandRegistry)
        ensures
            registry_contents(&r) == empty_registry(),
    {
        CommandRegistry { inner: hashbrown::HashMap::new() }
    }

    /// Relies on hashbrown::HashMap::insert: afterwards the name maps to the
    /// given handler; other keys are unchanged.
    #[verifier::external_body]
    pub fn add_command(&mut self, name: &str, cmd: Command)
        ensures
            registry_contents(final(self)) == registry_contents(old(self)).insert(name@, cmd),
    {
        self.inner.insert(name.to_string(), cmd);
    }

    /// Relies on hashbrown::HashMap::get: the handler bound to the name, if
    /// the name is a key.
    #[verifier::external_body]
    pub fn get(&self, name: &str) -> (r: Option<Command>)
        ensures
            r == if registry_contents(self).dom().contains(name@) {
                Option::Some(registry_contents(self)[name@])
            } else {
                Option::<Command>::None
            },
    {
        self.inner.get(name).copied()
    }
}

/// The trigger-to-handler mapping the bot starts with.
pub open spec fn standard_registry_spec() -> Map<Seq<char>, Command> {
    Map::<Seq<char>, Command>::empty()
        .insert("!play"@, Command::Play)
        .insert("!pause"@, Command::Pause)
        .insert("!rewind"@, Command::Rewind)
        .insert("!forward"@, Command::Forward)
        .insert("!pos"@, Command::Pos)
        .insert("!sub"@, Command::Sub)
        .insert("!aud"@, Command::Aud)
        .insert("!vol"@, Command::Vol)
        .insert("!joke"@, Command::Joke)
}

/// Builds the registry of all the bot's commands.
pub fn standard_registry() -> (r: CommandRegistry)
    ensures
        r@ == standard_registry_spec(),
{
    let mut r = CommandRegistry::new();
    proof {
        assert(registry_contents(&r) =~= Map::<Seq<char>, Command>::empty());
    }
    r.add_command("!play", Command::Play);
    r.add_command("!pause", Command::Pause);
    r.add_command("!rewind", Command::Rewind);
    r.add_command("!forward", Command::Forward);
    r.add_command("!pos", Command::Pos);
    r.add_command("!sub", Command::Sub);
    r.add_command("!aud", Command::Aud);
    r.add_command("!vol", Command::Vol);
    r.add_command("!joke", Command::Joke);
    r
}

/// The index of the first comma at or after `i` (or the length, if none).
pub open spec fn comma_end(s: Seq<char>, i: int) -> int
    decreases s.len() - i when 0 <= i <= s.len()
{
    if i >= s.len() {
        s.len() as int
    } else if s[i] == ',' {
        i
    } else {
        comma_end(s, i + 1)
    }
}

/// The comma-separated pieces of `s`; empty pieces are kept.
pub open spec fn split_commas(s: Seq<char>) -> Seq<Seq<char>>
    decreases s.len(),
{
    let p = comma_end(s, 0);
    if p < 0 || p >= s.len() {
        seq![s]
    } else {
        seq![s.subrange(0, p)] + split_commas(s.subrange(p + 1, s.len() as int))
    }
}

/// The lower-cased forms of a sequence of names, as a set.
pub open spec fn lowered_set(pieces: Seq<Seq<char>>) -> Set<Seq<char>> {
    Set::new(|x: Seq<char>| exists|i: int| 0 <= i < pieces.len() && x == text::lower(pieces[i]))
}

proof fn lemma_lowered_set_unfold(first: Seq<char>, rest: Seq<Seq<char>>)
    ensures
        lowered_set(seq![first] + rest) =~= lowered_set(rest).insert(text::lower(first)),
{
    let whole = seq![first] + rest;
    assert forall|x: Seq<char>|
        lowered_set(whole).contains(x) implies lowered_set(rest).insert(
        text::lower(first),
    ).contains(x) by {
        let i = choose|i: int| 0 <= i < whole.len() && x == text::lower(whole[i]);
        if i == 0 {
            assert(x == text::lower(first));
        } else {
            assert(whole[i] == rest[i - 1]);
            assert(lowered_set(rest).contains(x));
        }
    }
    assert forall|x: Seq<char>|
        lowered_set(rest).insert(text::lower(first)).contains(x) implies lowered_set(
        whole,
    ).contains(x) by {
        if x == text::lower(first) {
            assert(whole[0] == first);
            assert(lowered_set(whole).contains(x));
        } else {
            let i = choose|i: int| 0 <= i < rest.len() && x == text::lower(rest[i]);
            assert(whole[i + 1] == rest[i]);
            assert(lowered_set(whole).contains(x));
        }
    }
}

/// Adds every comma-separated name of `s`, lower-cased, to the set.
fn add_names(users: &mut UserSet, s: &str)
    ensures
        final(users)@ =~= old(users)@.union(lowered_set(split_commas(s@))),
    decreases s@.len(),
{
    let n = s.unicode_len();
    let mut p: usize = 0;
    while p < n && s.get_char(p) != ','
        invariant
            n == s@.len(),
            0 <= p <= n,
            comma_end(s@, 0) == comma_end(s@, p as int),
        decreases n - p,
    {
        p = p + 1;
    }
    proof {
        assert(comma_end(s@, p as int) == p);
    }
    if p == n {
        users.insert(text::lowercase(s));
        proof {
            assert(split_commas(s@) =~= seq![s@]);
            lemma_lowered_set_unfold(s@, Seq::<Seq<char>>::empty());
            assert(lowered_set(Seq::<Seq<char>>::empty()) =~= Set::<Seq<char>>::empty());
            assert(lowered_set(seq![s@] + Seq::<Seq<char>>::empty()) =~= lowered_set(seq![s@]));
            assert(final(users)@ =~= old(users)@.union(lowered_set(split_commas(s@))));
        }
    } else {
        let piece = s.substring_char(0, p);
        users.insert(text::lowercase(piece));
        let ghost users_mid = users@;
        let rest = s.substring_char(p + 1, n);
        add_names(users, rest);
        proof {
            assert(piece@ =~= s@.subrange(0, p as int));
            assert(rest@ =~= s@.subrange(p + 1, n as int));
            lemma_lowered_set_unfold(s@.subrange(0, p as int), split_commas(rest@));
            assert(split_commas(s@) == seq![s@.subrange(0, p as int)] + split_commas(rest@));
            assert(final(users)@ =~= old(users)@.union(lowered_set(split_commas(s@))));
        }
    }
}

/// Builds the authorized-user set from the comma-separated startup list,
/// lower-casing each entry.
pub fn authorized_from_csv(s: &str) -> (users: UserSet)
    ensures
        users@ =~= lowered_set(split_commas(s@)),
{
    let mut users = UserSet::new();
    add_names(&mut users, s);
    proof {
        assert(users@ =~= lowered_set(split_commas(s@)));
    }
    users
}

} // verus!
