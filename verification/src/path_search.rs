//! Which directory of installed software goes on the search path: its `bin`, the
//! directory itself or the `bin` of one of its subdirectories, whichever holds
//! programs first, and the directory itself where none does.
//!
//! [`PathSearch`] decides; its caller looks. In each stage it asks one
//! [`Question`] about the file system; the caller answers with a [`Finding`].

use crate::text::same_text;
use vstd::prelude::*;

verus! {

/// The operating systems that differ for this program.
#[derive(Clone, Copy, Debug, PartialEq, Eq, Structural)]
pub enum Platform {
    Windows,
    MacOs,
    /// Linux and its like.
    Other,
}

/// A directory that may go on the search path.
#[derive(Clone, Copy, Debug, PartialEq, Eq, Structural)]
pub enum Candidate {
    /// The directory of the software.
    Root,
    /// The directory `bin` in it.
    Bin,
    /// Its entry with this index, in the order in which they are listed. It is
    /// asked about, and never goes on the search path itself.
    Entry(usize),
    /// The directory `bin` in that entry.
    EntryBin(usize),
}

/// How far a search has come.
#[derive(Clone, Copy, Debug, PartialEq, Eq, Structural)]
pub enum SearchStage {
    BinIsDirectory,
    BinHasPrograms,
    RootHasPrograms,
    List,
    EntryIsDirectory(usize),
    EntryBinIsDirectory(usize),
    EntryBinHasPrograms(usize),
    Found(Candidate),
}

/// What a search asks its caller.
#[derive(Clone, Copy, Debug, PartialEq, Eq, Structural)]
pub enum Question {
    /// Is this a directory? The answer is [`Finding::Answer`].
    IsDirectory(Candidate),
    /// Does this directory hold programs? The answer is [`Finding::Answer`].
    HasPrograms(Candidate),
    /// How many entries does the directory of the software list? The answer is
    /// [`Finding::Listed`].
    ListEntries,
    /// None: this is the directory that goes on the search path.
    Settled(Candidate),
}

/// What the caller found.
#[derive(Clone, Copy, Debug, PartialEq, Eq, Structural)]
pub enum Finding {
    Answer(bool),
    /// The number of entries; `None` where the directory cannot be read.
    Listed(Option<usize>),
}

/// The search of one directory.
pub struct PathSearch {
    entries: usize,
    stage: SearchStage,
}

/// The mathematical reading of [`PathSearch`].
pub struct SearchView {
    /// The number of entries, once they have been listed.
    pub entries: usize,
    pub stage: SearchStage,
}

impl View for PathSearch {
    type V = SearchView;

    closed spec fn view(&self) -> SearchView {
        SearchView { entries: self.entries, stage: self.stage }
    }
}

impl SearchView {
    /// A search that has not begun.
    pub open spec fn start() -> SearchView {
        SearchView { entries: 0, stage: SearchStage::BinIsDirectory }
    }

    /// What is asked of the caller.
    pub open spec fn question(self) -> Question {
        match self.stage {
            SearchStage::BinIsDirectory => Question::IsDirectory(Candidate::Bin),
            SearchStage::BinHasPrograms => Question::HasPrograms(Candidate::Bin),
            SearchStage::RootHasPrograms => Question::HasPrograms(Candidate::Root),
            SearchStage::List => Question::ListEntries,
            SearchStage::EntryIsDirectory(i) => Question::IsDirectory(Candidate::Entry(i)),
            SearchStage::EntryBinIsDirectory(i) => Question::IsDirectory(Candidate::EntryBin(i)),
            SearchStage::EntryBinHasPrograms(i) => Question::HasPrograms(Candidate::EntryBin(i)),
            SearchStage::Found(candidate) => Question::Settled(candidate),
        }
    }

    /// The search with entry `i` next, or at its end where there is none.
    pub open spec fn at_entry(self, i: int) -> SearchView {
        SearchView {
            stage: if i < self.entries {
                SearchStage::EntryIsDirectory(i as usize)
            } else {
                SearchStage::Found(Candidate::Root)
            },
            ..self
        }
    }

    /// The search once the caller has answered with `finding`. A finding that
    /// does not answer the question changes nothing.
    pub open spec fn next(self, finding: Finding) -> SearchView {
        match (self.stage, finding) {
            (SearchStage::BinIsDirectory, Finding::Answer(yes)) => SearchView {
                stage: if yes {
                    SearchStage::BinHasPrograms
                } else {
                    SearchStage::RootHasPrograms
                },
                ..self
            },
            (SearchStage::BinHasPrograms, Finding::Answer(yes)) => SearchView {
                stage: if yes {
                    SearchStage::Found(Candidate::Bin)
                } else {
                    SearchStage::RootHasPrograms
                },
                ..self
            },
            (SearchStage::RootHasPrograms, Finding::Answer(yes)) => SearchView {
                stage: if yes {
                    SearchStage::Found(Candidate::Root)
                } else {
                    SearchStage::List
                },
                ..self
            },
            (SearchStage::List, Finding::Listed(listing)) => match listing {
                Some(n) => SearchView { entries: n, ..self }.at_entry(0),
                None => SearchView { stage: SearchStage::Found(Candidate::Root), ..self },
            },
            (SearchStage::EntryIsDirectory(i), Finding::Answer(yes)) => if yes {
                SearchView { stage: SearchStage::EntryBinIsDirectory(i), ..self }
            } else {
                self.at_entry(i + 1)
            },
            (SearchStage::EntryBinIsDirectory(i), Finding::Answer(yes)) => if yes {
                SearchView { stage: SearchStage::EntryBinHasPrograms(i), ..self }
            } else {
                self.at_entry(i + 1)
            },
            (SearchStage::EntryBinHasPrograms(i), Finding::Answer(yes)) => if yes {
                SearchView { stage: SearchStage::Found(Candidate::EntryBin(i)), ..self }
            } else {
                self.at_entry(i + 1)
            },
            _ => self,
        }
    }
}

/// Begins the search of a directory.
pub fn configure_path() -> (r: PathSearch)
    ensures
        r@ == SearchView::start(),
{
    PathSearch { entries: 0, stage: SearchStage::BinIsDirectory }
}

impl PathSearch {
    /// Every entry that a stage names is one of those listed.
    #[verifier::type_invariant]
    closed spec fn entry_is_listed(&self) -> bool {
        match self.stage {
            SearchStage::EntryIsDirectory(i)
            | SearchStage::EntryBinIsDirectory(i)
            | SearchStage::EntryBinHasPrograms(i) => i < self.entries,
            _ => true,
        }
    }

    /// What is asked of the caller.
    pub fn question(&self) -> (r: Question)
        ensures
            r == self@.question(),
    {
        match self.stage {
            SearchStage::BinIsDirectory => Question::IsDirectory(Candidate::Bin),
            SearchStage::BinHasPrograms => Question::HasPrograms(Candidate::Bin),
            SearchStage::RootHasPrograms => Question::HasPrograms(Candidate::Root),
            SearchStage::List => Question::ListEntries,
            SearchStage::EntryIsDirectory(i) => Question::IsDirectory(Candidate::Entry(i)),
            SearchStage::EntryBinIsDirectory(i) => Question::IsDirectory(Candidate::EntryBin(i)),
            SearchStage::EntryBinHasPrograms(i) => Question::HasPrograms(Candidate::EntryBin(i)),
            SearchStage::Found(candidate) => Question::Settled(candidate),
        }
    }

    /// The search of `entries` entries with entry `i` next.
    fn at_entry(entries: usize, i: usize) -> (r: PathSearch)
        ensures
            r@ == (SearchView { entries, stage: SearchStage::List }).at_entry(i as int),
    {
        if i < entries {
            PathSearch { entries, stage: SearchStage::EntryIsDirectory(i) }
        } else {
            PathSearch { entries, stage: SearchStage::Found(Candidate::Root) }
        }
    }

    /// Takes the caller's answer to the question. A finding that does not answer
    /// it changes nothing.
    pub fn advance(&mut self, finding: Finding)
        ensures
            final(self)@ == old(self)@.next(finding),
    {
        proof {
            use_type_invariant(&*self);
        }
        let entries: usize = self.entries;
        let next = match (self.stage, finding) {
            (SearchStage::BinIsDirectory, Finding::Answer(yes)) => PathSearch {
                entries,
                stage: if yes {
                    SearchStage::BinHasPrograms
                } else {
                    SearchStage::RootHasPrograms
                },
            },
            (SearchStage::BinHasPrograms, Finding::Answer(yes)) => PathSearch {
                entries,
                stage: if yes {
                    SearchStage::Found(Candidate::Bin)
                } else {
                    SearchStage::RootHasPrograms
                },
            },
            (SearchStage::RootHasPrograms, Finding::Answer(yes)) => PathSearch {
                entries,
                stage: if yes {
                    SearchStage::Found(Candidate::Root)
                } else {
                    SearchStage::List
                },
            },
            (SearchStage::List, Finding::Listed(listing)) => match listing {
                Some(n) => PathSearch::at_entry(n, 0),
                None => PathSearch { entries, stage: SearchStage::Found(Candidate::Root) },
            },
            (SearchStage::EntryIsDirectory(i), Finding::Answer(yes)) => if yes {
                PathSearch { entries, stage: SearchStage::EntryBinIsDirectory(i) }
            } else {
                PathSearch::at_entry(entries, i + 1)
            },
            (SearchStage::EntryBinIsDirectory(i), Finding::Answer(yes)) => if yes {
                PathSearch { entries, stage: SearchStage::EntryBinHasPrograms(i) }
            } else {
                PathSearch::at_entry(entries, i + 1)
            },
            (SearchStage::EntryBinHasPrograms(i), Finding::Answer(yes)) => if yes {
                PathSearch { entries, stage: SearchStage::Found(Candidate::EntryBin(i)) }
            } else {
                PathSearch::at_entry(entries, i + 1)
            },
            _ => {
                return ;
            },
        };
        *self = next;
    }
}

/// A directory as it is found: which candidates are directories, which hold
/// programs, and how many entries are listed.
pub struct Surroundings {
    pub is_directory: spec_fn(Candidate) -> bool,
    pub has_programs: spec_fn(Candidate) -> bool,
    pub listing: Option<usize>,
}

impl Surroundings {
    /// The true answer to a question.
    pub open spec fn answer(self, question: Question) -> Finding {
        match question {
            Question::IsDirectory(c) => Finding::Answer((self.is_directory)(c)),
            Question::HasPrograms(c) => Finding::Answer((self.has_programs)(c)),
            _ => Finding::Listed(self.listing),
        }
    }

    /// What entry `i` has to offer: its `bin`, where this is a directory with
    /// programs.
    pub open spec fn offer(self, i: usize) -> Option<Candidate> {
        if (self.is_directory)(Candidate::Entry(i)) && (self.is_directory)(Candidate::EntryBin(i))
            && (self.has_programs)(Candidate::EntryBin(i)) {
            Some(Candidate::EntryBin(i))
        } else {
            None
        }
    }

    /// The first offer from entry `i` of `n` on; the directory itself where there
    /// is none.
    pub open spec fn first_offer(self, i: int, n: usize) -> Candidate
        decreases n - i,
    {
        if i >= n {
            Candidate::Root
        } else {
            match self.offer(i as usize) {
                Some(candidate) => candidate,
                None => self.first_offer(i + 1, n),
            }
        }
    }

    /// The directory that goes on the search path: `bin` where it is a directory
    /// with programs; else the directory itself where it has programs; else the
    /// first offer of an entry; else the directory itself.
    pub open spec fn best(self) -> Candidate {
        if (self.is_directory)(Candidate::Bin) && (self.has_programs)(Candidate::Bin) {
            Candidate::Bin
        } else if (self.has_programs)(Candidate::Root) {
            Candidate::Root
        } else {
            match self.listing {
                Some(n) => self.first_offer(0, n),
                None => Candidate::Root,
            }
        }
    }
}

/// The search after `steps` true answers.
pub open spec fn searched(world: Surroundings, steps: nat) -> SearchView
    decreases steps,
{
    if steps == 0 {
        SearchView::start()
    } else {
        let before = searched(world, (steps - 1) as nat);
        before.next(world.answer(before.question()))
    }
}

/// Where a search with true answers will end.
spec fn destination(world: Surroundings, s: SearchView) -> Candidate {
    match s.stage {
        SearchStage::BinIsDirectory => world.best(),
        SearchStage::BinHasPrograms => if (world.has_programs)(Candidate::Bin) {
            Candidate::Bin
        } else {
            destination_of_rest(world)
        },
        SearchStage::RootHasPrograms => destination_of_rest(world),
        SearchStage::List => destination_of_list(world),
        SearchStage::EntryIsDirectory(i) => world.first_offer(i as int, s.entries),
        SearchStage::EntryBinIsDirectory(i) => world.first_offer(i as int, s.entries),
        SearchStage::EntryBinHasPrograms(i) => world.first_offer(i as int, s.entries),
        SearchStage::Found(candidate) => candidate,
    }
}

spec fn destination_of_rest(world: Surroundings) -> Candidate {
    if (world.has_programs)(Candidate::Root) {
        Candidate::Root
    } else {
        destination_of_list(world)
    }
}

spec fn destination_of_list(world: Surroundings) -> Candidate {
    match world.listing {
        Some(n) => world.first_offer(0, n),
        None => Candidate::Root,
    }
}

/// What is known of the file system when a stage is reached.
spec fn on_the_way(world: Surroundings, s: SearchView) -> bool {
    match s.stage {
        SearchStage::BinHasPrograms => (world.is_directory)(Candidate::Bin),
        SearchStage::EntryIsDirectory(i) => i < s.entries,
        SearchStage::EntryBinIsDirectory(i) => i < s.entries && (world.is_directory)(
            Candidate::Entry(i),
        ),
        SearchStage::EntryBinHasPrograms(i) => i < s.entries && (world.is_directory)(
            Candidate::Entry(i),
        ) && (world.is_directory)(Candidate::EntryBin(i)),
        _ => true,
    }
}

/// The number of entries that the search may come to.
pub open spec fn entry_count(world: Surroundings) -> int {
    match world.listing {
        Some(n) => n as int,
        None => 0,
    }
}

/// A bound on the answers that a search still needs.
spec fn answers_left(world: Surroundings, s: SearchView) -> int {
    match s.stage {
        SearchStage::BinIsDirectory => 3 * entry_count(world) + 4,
        SearchStage::BinHasPrograms => 3 * entry_count(world) + 3,
        SearchStage::RootHasPrograms => 3 * entry_count(world) + 2,
        SearchStage::List => 3 * entry_count(world) + 1,
        SearchStage::EntryIsDirectory(i) => 3 * (s.entries - i),
        SearchStage::EntryBinIsDirectory(i) => 3 * (s.entries - i) - 1,
        SearchStage::EntryBinHasPrograms(i) => 3 * (s.entries - i) - 2,
        SearchStage::Found(_) => 0,
    }
}

proof fn search_stays_on_course(world: Surroundings, steps: nat)
    ensures
        on_the_way(world, searched(world, steps)),
        destination(world, searched(world, steps)) == world.best(),
        0 <= answers_left(world, searched(world, steps)),
        searched(world, steps).stage is Found || answers_left(world, searched(world, steps))
            <= 3 * entry_count(world) + 4 - steps,
    decreases steps,
{
    if steps > 0 {
        search_stays_on_course(world, (steps - 1) as nat);
        reveal_with_fuel(Surroundings::first_offer, 2);
    }
}

/// A search that is answered truthfully settles on the best directory, after at
/// most three answers for each entry and four more.
pub proof fn search_finds_the_best(world: Surroundings, steps: nat)
    requires
        steps >= 3 * entry_count(world) + 4,
    ensures
        searched(world, steps).stage == SearchStage::Found(world.best()),
        searched(world, steps).question() == Question::Settled(world.best()),
{
    search_stays_on_course(world, steps);
}

/// What is known of one entry of a directory.
pub struct EntryFacts {
    pub is_file: bool,
    /// What stands behind the last dot of its name, where there is such a dot.
    pub extension: Option<String>,
    /// Its permission bits, on the systems that have them, where they can be read.
    pub mode: Option<u32>,
}

/// The text in lower case, as Unicode has it.
pub uninterp spec fn lower_case(s: Seq<char>) -> Seq<char>;

/// The lower case of an ASCII character.
pub open spec fn ascii_lower(c: char) -> char {
    if 'A' <= c <= 'Z' {
        (c as u32 + 32) as char
    } else {
        c
    }
}

/// `str::to_lowercase`: the text in lower case. It depends on the text alone, and
/// in an ASCII text each of the letters A to Z becomes its small letter.
#[verifier::external_body]
fn to_lower_case(s: &str) -> (r: String)
    ensures
        r@ == lower_case(s@),
        s.is_ascii() ==> r@ == s@.map_values(|c: char| ascii_lower(c)),
{
    s.to_lowercase()
}

/// Whether an extension, in lower case, is that of a Windows program.
pub open spec fn is_program_extension(extension: Seq<char>) -> bool {
    extension == "exe"@ || extension == "cmd"@ || extension == "bat"@
}

/// Whether an extension, in lower case, is that of a Windows program.
pub fn names_a_program(extension: &str) -> (r: bool)
    ensures
        r == is_program_extension(extension@),
{
    same_text(extension, "exe") || same_text(extension, "cmd") || same_text(extension, "bat")
}

/// Whether an extension is that of a Windows program, in whatever case its
/// letters are.
pub fn runs_on_windows(extension: &str) -> (r: bool)
    ensures
        r == is_program_extension(lower_case(extension@)),
        extension.is_ascii() ==> r == is_program_extension(
            extension@.map_values(|c: char| ascii_lower(c)),
        ),
{
    names_a_program(to_lower_case(extension).as_str())
}

/// Whether an entry is a program: on Windows a file whose extension says so,
/// elsewhere a file that someone may execute.
pub open spec fn is_program(platform: Platform, entry: EntryFacts) -> bool {
    entry.is_file && match platform {
        Platform::Windows => entry.extension matches Some(e) && is_program_extension(
            lower_case(e@),
        ),
        _ => entry.mode matches Some(mode) && mode & 0o111 != 0,
    }
}

/// Whether one of the entries is a program.
pub open spec fn holds_program(platform: Platform, entries: Seq<EntryFacts>) -> bool {
    exists|i: int| 0 <= i < entries.len() && is_program(platform, #[trigger] entries[i])
}

/// Whether every extension of the entries is ASCII.
pub open spec fn extensions_are_ascii(entries: Seq<EntryFacts>) -> bool {
    forall|i: int|
        0 <= i < entries.len() ==> ((#[trigger] entries[i]).extension matches Some(e)
            ==> e.is_ascii())
}

/// Whether an entry is a file whose extension is that of a Windows program, in
/// whatever case its ASCII letters are.
pub open spec fn is_ascii_windows_program(entry: EntryFacts) -> bool {
    entry.is_file && (entry.extension matches Some(e) && is_program_extension(
        e@.map_values(|c: char| ascii_lower(c)),
    ))
}

/// Whether a directory holds programs. One that cannot be read holds none.
pub fn has_executables(platform: Platform, entries: &Option<Vec<EntryFacts>>) -> (r: bool)
    ensures
        r == (entries is Some && holds_program(platform, entries->0@)),
        platform == Platform::Windows && entries is Some && extensions_are_ascii(entries->0@)
            ==> r == (exists|i: int|
            0 <= i < entries->0@.len() && is_ascii_windows_program(#[trigger] entries->0@[i])),
        entries is None ==> !r,
        platform != Platform::Windows && entries is Some ==> (r <==> exists|i: int|
            0 <= i < entries->0@.len() && (#[trigger] entries->0@[i]).is_file
                && entries->0@[i].mode is Some && entries->0@[i].mode->0 & 0o111 != 0),
        platform == Platform::Windows && entries is Some ==> (r <==> exists|i: int|
            0 <= i < entries->0@.len() && (#[trigger] entries->0@[i]).is_file
                && entries->0@[i].extension is Some && (lower_case(entries->0@[i].extension->0@)
                == "exe"@ || lower_case(entries->0@[i].extension->0@) == "cmd"@ || lower_case(
                entries->0@[i].extension->0@,
            ) == "bat"@)),
{
    let list = match entries {
        Some(list) => list,
        None => {
            return false;
        },
    };
    for i in 0..list.len()
        invariant
            *entries == Some(*list),
            forall|k: int| 0 <= k < i ==> !is_program(platform, #[trigger] list@[k]),
            platform == Platform::Windows && extensions_are_ascii(list@) ==> forall|k: int|
                0 <= k < i ==> !is_ascii_windows_program(#[trigger] list@[k]),
    {
        let entry = &list[i];
        let yes = entry.is_file && match platform {
            Platform::Windows => match &entry.extension {
                Some(e) => runs_on_windows(e.as_str()),
                None => false,
            },
            _ => match entry.mode {
                Some(mode) => mode & 0o111 != 0,
                None => false,
            },
        };
        assert(platform == Platform::Windows && extensions_are_ascii(list@) ==> yes
            == is_ascii_windows_program(list@[i as int]));
        if yes {
            assert(is_program(platform, list@[i as int]));
            proof {
                programs_are_executable_files(platform, list@);
            }
            return true;
        }
    }
    proof {
        programs_are_executable_files(platform, list@);
    }
    false
}

/// Outside Windows a directory holds a program exactly if one of its entries is a
/// file whose permission bits can be read and let someone execute it, whatever its
/// extension is. On Windows it does exactly if one of its entries is a file whose
/// extension, in lower case, is `exe`, `cmd` or `bat`, whatever its permission bits
/// are.
pub proof fn programs_are_executable_files(platform: Platform, entries: Seq<EntryFacts>)
    ensures
        platform != Platform::Windows ==> (holds_program(platform, entries) <==> exists|i: int|
            0 <= i < entries.len() && (#[trigger] entries[i]).is_file && entries[i].mode is Some
                && entries[i].mode->0 & 0o111 != 0),
        platform == Platform::Windows ==> (holds_program(platform, entries) <==> exists|i: int|
            0 <= i < entries.len() && (#[trigger] entries[i]).is_file
                && entries[i].extension is Some && (lower_case(entries[i].extension->0@) == "exe"@
                || lower_case(entries[i].extension->0@) == "cmd"@ || lower_case(
                entries[i].extension->0@,
            ) == "bat"@)),
{
    assert forall|i: int| 0 <= i < entries.len() implies is_program(platform, #[trigger] entries[i])
        == (entries[i].is_file && (if platform == Platform::Windows {
        entries[i].extension is Some && (lower_case(entries[i].extension->0@) == "exe"@
            || lower_case(entries[i].extension->0@) == "cmd"@ || lower_case(
            entries[i].extension->0@,
        ) == "bat"@)
    } else {
        entries[i].mode is Some && entries[i].mode->0 & 0o111 != 0
    })) by {}
}

/// One program is enough, wherever it is listed and whatever else is.
pub proof fn one_program_is_enough(
    platform: Platform,
    before: Seq<EntryFacts>,
    entry: EntryFacts,
    after: Seq<EntryFacts>,
)
    ensures
        holds_program(platform, before.push(entry) + after) <==> holds_program(platform, before)
            || holds_program(platform, seq![entry]) || holds_program(platform, after),
{
    let all = before.push(entry) + after;
    let n = before.len() as int;
    if holds_program(platform, before) {
        let i = choose|i: int|
            0 <= i < before.len() && is_program(platform, #[trigger] before[i]);
        assert(all[i] == before[i]);
    }
    if holds_program(platform, seq![entry]) {
        assert(all[n] == entry);
    }
    if holds_program(platform, after) {
        let i = choose|i: int| 0 <= i < after.len() && is_program(platform, #[trigger] after[i]);
        assert(all[n + 1 + i] == after[i]);
    }
    if holds_program(platform, all) {
        let i = choose|i: int| 0 <= i < all.len() && is_program(platform, #[trigger] all[i]);
        if i < n {
            assert(before[i] == all[i]);
        } else if i == n {
            assert(seq![entry][0] == all[i]);
        } else {
            assert(after[i - n - 1] == all[i]);
        }
    }
}

/// The small letter of A to Z is thirty-two places behind it; every other
/// character stays.
pub proof fn ascii_letters_lose_their_case(c: char)
    ensures
        'A' <= c <= 'Z' ==> ascii_lower(c) as int == c as int + 32,
        !('A' <= c <= 'Z') ==> ascii_lower(c) == c,
{
}

/// The first offer is the `bin` of the first entry that is a directory and whose
/// `bin` is a directory with programs; without such an entry it is the directory
/// itself.
proof fn first_offer_is_the_first(world: Surroundings, i: int, n: usize)
    requires
        0 <= i <= n,
    ensures
        world.first_offer(i, n) == Candidate::Root <==> forall|k: usize|
            i <= k < n ==> !((world.is_directory)(Candidate::Entry(k)) && (world.is_directory)(
                Candidate::EntryBin(k),
            ) && #[trigger] (world.has_programs)(Candidate::EntryBin(k))),
        world.first_offer(i, n) != Candidate::Root ==> (world.first_offer(
            i,
            n,
        ) matches Candidate::EntryBin(j) && i <= j < n && (world.is_directory)(Candidate::Entry(j))
            && (world.is_directory)(Candidate::EntryBin(j)) && (world.has_programs)(
            Candidate::EntryBin(j),
        ) && (forall|k: usize|
            i <= k < j ==> !((world.is_directory)(Candidate::Entry(k)) && (world.is_directory)(
                Candidate::EntryBin(k),
            ) && #[trigger] (world.has_programs)(Candidate::EntryBin(k))))),
    decreases n - i,
{
    if i < n {
        first_offer_is_the_first(world, i + 1, n);
        assert((world.has_programs)(Candidate::EntryBin(i as usize)) || !(world.has_programs)(
            Candidate::EntryBin(i as usize),
        ));
    }
}

/// Where a search that is answered truthfully ends. `bin` is chosen where it is a
/// directory with programs. Else the directory itself is chosen where it has
/// programs, or where it cannot be listed. Else the `bin` of an entry is chosen,
/// where entry and `bin` are directories, this `bin` has programs, and no earlier
/// entry is like that; and the directory itself where there is no such entry.
pub proof fn search_ends_where_the_programs_are(world: Surroundings, steps: nat)
    requires
        steps >= 3 * (if world.listing is Some {
            world.listing->0 as int
        } else {
            0
        }) + 4,
    ensures
        ({
            let bin = (world.is_directory)(Candidate::Bin) && (world.has_programs)(Candidate::Bin);
            let root = (world.has_programs)(Candidate::Root);
            let end = searched(world, steps).question();
            &&& end is Settled
            &&& bin ==> end == Question::Settled(Candidate::Bin)
            &&& !bin && root ==> end == Question::Settled(Candidate::Root)
            &&& !bin && !root && world.listing is None ==> end == Question::Settled(
                Candidate::Root,
            )
            &&& !bin && !root && world.listing is Some && (forall|k: usize|
                k < world.listing->0 ==> !((world.is_directory)(Candidate::Entry(k))
                    && (world.is_directory)(Candidate::EntryBin(k))
                    && #[trigger] (world.has_programs)(Candidate::EntryBin(k))))
                ==> end == Question::Settled(Candidate::Root)
            &&& forall|j: usize|
                !bin && !root && world.listing is Some && j < world.listing->0
                    && (world.is_directory)(Candidate::Entry(j)) && (world.is_directory)(
                    Candidate::EntryBin(j),
                ) && #[trigger] (world.has_programs)(Candidate::EntryBin(j)) && (forall|k: usize|
                    k < j ==> !((world.is_directory)(Candidate::Entry(k)) && (world.is_directory)(
                        Candidate::EntryBin(k),
                    ) && #[trigger] (world.has_programs)(Candidate::EntryBin(k))))
                    ==> end == Question::Settled(Candidate::EntryBin(j))
        }),
{
    search_finds_the_best(world, steps);
    if world.listing is Some {
        first_offer_is_the_first(world, 0, world.listing->0);
    }
}

/// A truthful caller answers each question by what is there.
pub proof fn answers_are_true(world: Surroundings, candidate: Candidate)
    ensures
        world.answer(Question::IsDirectory(candidate)) == Finding::Answer(
            (world.is_directory)(candidate),
        ),
        world.answer(Question::HasPrograms(candidate)) == Finding::Answer(
            (world.has_programs)(candidate),
        ),
        world.answer(Question::ListEntries) == Finding::Listed(world.listing),
{
}

/// The extensions of Windows programs are these three and no other.
pub proof fn three_extensions_name_programs(extension: Seq<char>)
    ensures
        is_program_extension(extension) <==> (extension == "exe"@ || extension == "cmd"@
            || extension == "bat"@),
{
}

/// A finding that does not answer the question changes nothing, and nothing does
/// once the search has settled.
pub proof fn wrong_findings_change_nothing(s: SearchView, finding: Finding)
    ensures
        (s.question() is IsDirectory || s.question() is HasPrograms) && !(finding is Answer)
            ==> s.next(finding) == s,
        s.question() is ListEntries && !(finding is Listed) ==> s.next(finding) == s,
        s.question() is Settled ==> s.next(finding) == s,
{
}

} // verus!
