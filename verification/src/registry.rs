use vstd::prelude::*;
use crate::actions::HandlerKind;
use crate::text::str_eq;

verus! {

/// One entry of the registry: a command name and what the command does
/// when its run is over.
#[derive(Debug)]
pub struct Registration {
    pub name: String,
    pub kind: HandlerKind,
}

/// The commands that may be run, by name. A name registered again takes the
/// place of the earlier registration.
///
/// The entries are held in a list and looked up from its end. A hash map
/// keyed by text would not do here: vstd gives no model of hashing for a
/// text key, and of such a map nothing can be proved, not even that it
/// holds what was put into it.
#[derive(Debug)]
pub struct CommandHandler {
    cmd_reg: Vec<Registration>,
}

/// The kind that the latest entry for `name` gives, if any entry has that
/// name.
pub open spec fn latest(entries: Seq<Registration>, name: Seq<char>) -> Option<HandlerKind>
    decreases entries.len(),
{
    if entries.len() == 0 {
        None
    } else if entries.last().name@ == name {
        Some(entries.last().kind)
    } else {
        latest(entries.drop_last(), name)
    }
}

impl View for CommandHandler {
    type V = Map<Seq<char>, HandlerKind>;

    closed spec fn view(&self) -> Map<Seq<char>, HandlerKind> {
        Map::new(
            |n: Seq<char>| latest(self.cmd_reg@, n) is Some,
            |n: Seq<char>| latest(self.cmd_reg@, n)->Some_0,
        )
    }
}

impl CommandHandler {
    /// A registry without any command.
    pub fn new() -> (r: CommandHandler)
        ensures
            r@ == Map::<Seq<char>, HandlerKind>::empty(),
    {
        let r = CommandHandler { cmd_reg: Vec::new() };
        assert(r@ =~= Map::<Seq<char>, HandlerKind>::empty());
        r
    }

    /// Registers a command under `name`.
    pub fn register(&mut self, name: &str, kind: HandlerKind)
        ensures
            final(self)@ == old(self)@.insert(name@, kind),
    {
        let ghost before = self.cmd_reg@;
        self.cmd_reg.push(Registration { name: name.to_owned(), kind });
        assert(self.cmd_reg@.drop_last() == before);
        assert(self@ =~= old(self)@.insert(name@, kind));
    }

    /// What the command registered under `name` does, if there is one.
    pub fn get(&self, name: &str) -> (r: Option<HandlerKind>)
        ensures
            match r {
                Some(kind) => self@.contains_key(name@) && self@[name@] == kind,
                None => !self@.contains_key(name@),
            },
    {
        let mut i: usize = self.cmd_reg.len();
        assert(self.cmd_reg@.take(i as int) == self.cmd_reg@);
        while i > 0
            invariant
                i <= self.cmd_reg.len(),
                latest(self.cmd_reg@, name@) == latest(self.cmd_reg@.take(i as int), name@),
            decreases i,
        {
            i -= 1;
            assert(self.cmd_reg@.take(i + 1).drop_last() == self.cmd_reg@.take(i as int));
            assert(self.cmd_reg@.take(i + 1).last() == self.cmd_reg@[i as int]);
            if str_eq(self.cmd_reg[i].name.as_str(), name) {
                return Some(self.cmd_reg[i].kind);
            }
        }
        None
    }

    /// Whether a command is registered under `name`.
    pub fn contains_key(&self, name: &str) -> (r: bool)
        ensures
            r == self@.contains_key(name@),
    {
        self.get(name).is_some()
    }
}

impl Default for CommandHandler {
    /// The registry that the dashboard starts with: `echo`, which reports
    /// when its run is over.
    fn default() -> (r: CommandHandler)
        ensures
            r@ == Map::<Seq<char>, HandlerKind>::empty().insert("echo"@, HandlerKind::Report),
    {
        let mut r = CommandHandler::new();
        r.register("echo", HandlerKind::Report);
        r
    }
}

impl Clone for CommandHandler {
    fn clone(&self) -> (r: CommandHandler)
        ensures
            r@ == self@,
    {
        let mut out: Vec<Registration> = Vec::new();
        let mut i: usize = 0;
        while i < self.cmd_reg.len()
            invariant
                i <= self.cmd_reg.len(),
                out.len() == i,
                forall|j: int|
                    0 <= j < i ==> out[j].name@ == self.cmd_reg[j].name@ && out[j].kind
                        == self.cmd_reg[j].kind,
            decreases self.cmd_reg.len() - i,
        {
            out.push(
                Registration { name: self.cmd_reg[i].name.clone(), kind: self.cmd_reg[i].kind },
            );
            i += 1;
        }
        let r = CommandHandler { cmd_reg: out };
        assert(r@ =~= self@) by {
            assert forall|n: Seq<char>| latest(r.cmd_reg@, n) == latest(self.cmd_reg@, n) by {
                lemma_latest_same(r.cmd_reg@, self.cmd_reg@, n);
            }
        }
        r
    }
}

/// Two lists of entries with the same names and kinds register the same.
proof fn lemma_latest_same(a: Seq<Registration>, b: Seq<Registration>, name: Seq<char>)
    requires
        a.len() == b.len(),
        forall|j: int| 0 <= j < a.len() ==> a[j].name@ == b[j].name@ && a[j].kind == b[j].kind,
    ensures
        latest(a, name) == latest(b, name),
    decreases a.len(),
{
    if a.len() > 0 {
        lemma_latest_same(a.drop_last(), b.drop_last(), name);
    }
}

} // verus!
