use vstd::hash_map::StringHashMap;
use vstd::prelude::*;

verus! {

/// The files that this machine offers to the other nodes, by the name under
/// which they are offered.
pub struct FileService {
    providing_files: StringHashMap<String>,
}

/// Offering a file under a name makes that name answer with its path and
/// leaves every other name as it was; withdrawing a name leaves it unanswered
/// and every other name as it was.
pub proof fn offered_files_read_after_write(
    files: Map<Seq<char>, Seq<char>>,
    key: Seq<char>,
    path: Seq<char>,
    other: Seq<char>,
)
    requires
        other != key,
    ensures
        files.insert(key, path).contains_key(key),
        files.insert(key, path)[key] == path,
        files.insert(key, path).contains_key(other) == files.contains_key(other),
        files.contains_key(other) ==> files.insert(key, path)[other] == files[other],
        !files.remove(key).contains_key(key),
        files.remove(key).contains_key(other) == files.contains_key(other),
        files.contains_key(other) ==> files.remove(key)[other] == files[other],
{
}

/// The offers made by the records `(name, path)` taken in order: each record
/// offers its path under its name, replacing what the name offered before.
pub open spec fn offered_from(records: Seq<(String, String)>) -> Map<Seq<char>, Seq<char>>
    decreases records.len(),
{
    if records.len() == 0 {
        Map::empty()
    } else {
        offered_from(records.drop_last()).insert(records.last().0@, records.last().1@)
    }
}

proof fn unnamed_not_offered(records: Seq<(String, String)>, name: Seq<char>)
    requires
        forall|j: int| 0 <= j < records.len() ==> (#[trigger] records[j]).0@ != name,
    ensures
        !offered_from(records).contains_key(name),
    decreases records.len(),
{
    if records.len() > 0 {
        let rest = records.drop_last();
        assert(records[records.len() - 1].0@ != name);
        assert forall|j: int| 0 <= j < rest.len() implies (#[trigger] rest[j]).0@ != name by {
            assert(rest[j] == records[j]);
        }
        unnamed_not_offered(rest, name);
    }
}

/// Kept offers survive a restart: a stored record that no later record of the
/// same name replaces is answered with its path, and a name that no record
/// names is not answered.
pub proof fn stored_offers_survive_restart(records: Seq<(String, String)>, i: int, name: Seq<char>)
    requires
        0 <= i < records.len(),
        forall|j: int| i < j < records.len() ==> (#[trigger] records[j]).0@ != records[i].0@,
    ensures
        offered_from(records).contains_key(records[i].0@),
        offered_from(records)[records[i].0@] == records[i].1@,
        (forall|j: int| 0 <= j < records.len() ==> (#[trigger] records[j]).0@ != name)
            ==> !offered_from(records).contains_key(name),
    decreases records.len(),
{
    if forall|j: int| 0 <= j < records.len() ==> (#[trigger] records[j]).0@ != name {
        unnamed_not_offered(records, name);
    }
    if i < records.len() - 1 {
        let rest = records.drop_last();
        assert(records[records.len() - 1].0@ != records[i].0@);
        assert(rest[i] == records[i]);
        assert forall|j: int| i < j < rest.len() implies (#[trigger] rest[j]).0@ != rest[i].0@ by {
            assert(rest[j] == records[j]);
        }
        stored_offers_survive_restart(rest, i, name);
    }
}

impl View for FileService {
    type V = Map<Seq<char>, Seq<char>>;

    /// Each offered name with the path of its file.
    closed spec fn view(&self) -> Map<Seq<char>, Seq<char>> {
        self.providing_files@.map_values(|p: String| p@)
    }
}

impl FileService {
    /// The service as it was kept before a restart: it offers the stored
    /// records `(name, path)`, a later record of a name replacing an earlier
    /// one.
    pub fn new(stored: Vec<(String, String)>) -> (s: Self)
        ensures
            s@ == offered_from(stored@),
    {
        let mut s = FileService { providing_files: StringHashMap::new() };
        assert(s@ =~= offered_from(stored@.take(0)));
        let mut i: usize = 0;
        while i < stored.len()
            invariant
                0 <= i <= stored.len(),
                s@ == offered_from(stored@.take(i as int)),
            decreases stored.len() - i,
        {
            let ghost before = s@;
            s.providing_files.insert(stored[i].0.clone(), stored[i].1.clone());
            proof {
                assert(stored@.take(i + 1).drop_last() =~= stored@.take(i as int));
                assert(s@ =~= before.insert(stored@[i as int].0@, stored@[i as int].1@));
            }
            i = i + 1;
        }
        proof {
            assert(stored@.take(stored.len() as int) =~= stored@);
        }
        s
    }

    /// The path offered under `key`, if any.
    pub fn get_file_path(&self, key: &str) -> (p: Option<&String>)
        ensures
            match p {
                Some(path) => self@.contains_key(key@) && path@ == self@[key@],
                None => !self@.contains_key(key@),
            },
    {
        self.providing_files.get(key)
    }

    /// Offers the file at `path` under `key`, replacing what `key` offered.
    pub fn add_providing_file(&mut self, key: &str, path: &str)
        ensures
            final(self)@ == old(self)@.insert(key@, path@),
    {
        self.providing_files.insert(key.to_owned(), path.to_owned());
        proof {
            assert(self@ =~= old(self)@.insert(key@, path@));
        }
    }

    /// Stops offering `key`; returns the path it offered, if any.
    pub fn remove_providing_file(&mut self, key: &str) -> (p: Option<String>)
        ensures
            final(self)@ == old(self)@.remove(key@),
            match p {
                Some(path) => old(self)@.contains_key(key@) && path@ == old(self)@[key@],
                None => !old(self)@.contains_key(key@),
            },
    {
        let found = match self.providing_files.get(key) {
            Some(path) => Some(path.clone()),
            None => None,
        };
        self.providing_files.remove(key);
        proof {
            assert(self@ =~= old(self)@.remove(key@));
        }
        found
    }
}

} // verus!
