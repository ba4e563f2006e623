//! Where the bridge script lies, which Python runs it, and in which environment.
//!
//! The searches decide; the caller looks. [`BridgeSearch::step`] says what to look at next,
//! and [`BridgeSearch::advance`] takes what the caller saw.
use crate::text;
use vstd::prelude::*;

verus! {

/// The directory that a place is given from.
#[derive(Clone, Copy, PartialEq, Eq, Structural, Debug)]
pub enum Base {
    /// The directory in which the search stands.
    Here,
    /// The home directory of the user.
    Home,
}

/// A file, by a directory and the names that lead from there to it.
#[derive(Debug)]
pub struct Place {
    pub base: Base,
    pub parts: Vec<String>,
}

/// The place that a [`Place`] stands for.
#[verifier::ext_equal]
pub struct PlaceView {
    pub base: Base,
    pub parts: Seq<Seq<char>>,
}

impl View for Place {
    type V = PlaceView;

    open spec fn view(&self) -> PlaceView {
        PlaceView { base: self.base, parts: text::texts(self.parts@) }
    }
}

/// What to do next in a search for the bridge.
#[derive(Debug)]
pub enum Step {
    /// Look whether the file exists.
    Probe(Place),
    /// Go up to the parent directory, if there is one.
    Climb,
    /// Find the home directory, if there is one.
    AskHome,
    /// The search is over; the bridge lies at the place, or nowhere.
    Done(Option<Place>),
}

/// The step that a [`Step`] stands for.
pub enum StepView {
    Probe(PlaceView),
    Climb,
    AskHome,
    Done(Option<PlaceView>),
}

impl View for Step {
    type V = StepView;

    open spec fn view(&self) -> StepView {
        match self {
            Step::Probe(place) => StepView::Probe(place@),
            Step::Climb => StepView::Climb,
            Step::AskHome => StepView::AskHome,
            Step::Done(Some(place)) => StepView::Done(Some(place@)),
            Step::Done(None) => StepView::Done(None),
        }
    }
}

/// How far a search has come.
#[derive(Clone, Copy, PartialEq, Eq, Structural, Debug)]
pub enum Stage {
    /// Whether this directory holds the marker of a project is to be seen.
    Marker,
    /// This directory holds no marker.
    Climb,
    /// This directory holds the marker; whether it holds the script is to be seen.
    Beside,
    /// As before, in its directory for scripts.
    BesideInScripts,
    /// No script lies beside a marker.
    Home,
    /// Whether the script lies at this one of the common locations is to be seen.
    Common(usize),
    FoundBeside,
    FoundInScripts,
    FoundCommon(usize),
    Missing,
}

/// A search for the bridge script: its stage, and the common locations below the home
/// directory in the order in which they are looked at.
#[derive(Debug)]
pub struct BridgeSearch {
    stage: Stage,
    common: Vec<Vec<String>>,
}

/// The search that a [`BridgeSearch`] stands for.
#[verifier::ext_equal]
pub struct SearchView {
    pub stage: Stage,
    pub common: Seq<Seq<Seq<char>>>,
}

/// The marker of a project that has a knowledge base.
pub open spec fn marker_parts() -> Seq<Seq<char>> {
    seq![".mimir"@, "config.json"@]
}

/// The bridge script beside the marker.
pub open spec fn beside_parts() -> Seq<Seq<char>> {
    seq!["mimir_bridge.py"@]
}

/// The bridge script in the directory for scripts beside the marker.
pub open spec fn scripts_parts() -> Seq<Seq<char>> {
    seq!["scripts"@, "mimir_bridge.py"@]
}

/// The common locations below the home directory, in the order in which the tool looks at
/// them.
pub open spec fn tool_common() -> Seq<Seq<Seq<char>>> {
    seq![
        seq!["Documents"@, "Mimir"@, "mimir_bridge.py"@],
        seq![".local"@, "share"@, "mimir"@, "mimir_bridge.py"@],
    ]
}

impl SearchView {
    /// Whether the stage speaks of a common location that there is, and they can be counted.
    pub open spec fn wf(self) -> bool {
        &&& self.common.len() <= usize::MAX
        &&& match self.stage {
            Stage::Common(i) => i < self.common.len(),
            Stage::FoundCommon(i) => i < self.common.len(),
            _ => true,
        }
    }

    /// What to do next.
    pub open spec fn step(self) -> StepView {
        match self.stage {
            Stage::Marker => StepView::Probe(
                PlaceView { base: Base::Here, parts: marker_parts() },
            ),
            Stage::Climb => StepView::Climb,
            Stage::Beside => StepView::Probe(
                PlaceView { base: Base::Here, parts: beside_parts() },
            ),
            Stage::BesideInScripts => StepView::Probe(
                PlaceView { base: Base::Here, parts: scripts_parts() },
            ),
            Stage::Home => StepView::AskHome,
            Stage::Common(i) => StepView::Probe(
                PlaceView { base: Base::Home, parts: self.common[i as int] },
            ),
            Stage::FoundBeside => StepView::Done(
                Some(PlaceView { base: Base::Here, parts: beside_parts() }),
            ),
            Stage::FoundInScripts => StepView::Done(
                Some(PlaceView { base: Base::Here, parts: scripts_parts() }),
            ),
            Stage::FoundCommon(i) => StepView::Done(
                Some(PlaceView { base: Base::Home, parts: self.common[i as int] }),
            ),
            Stage::Missing => StepView::Done(None),
        }
    }

    /// The stage at which the common location `i` is looked at, if there is such a one.
    pub open spec fn common_from(self, i: int) -> Stage {
        if i < self.common.len() {
            Stage::Common(i as usize)
        } else {
            Stage::Missing
        }
    }

    /// The search once the step was taken: `answer` says whether the file exists, whether
    /// there was a parent directory, or whether there is a home directory.
    pub open spec fn after(self, answer: bool) -> SearchView {
        let stage = match self.stage {
            Stage::Marker => if answer {
                Stage::Beside
            } else {
                Stage::Climb
            },
            Stage::Climb => if answer {
                Stage::Marker
            } else {
                Stage::Home
            },
            Stage::Beside => if answer {
                Stage::FoundBeside
            } else {
                Stage::BesideInScripts
            },
            Stage::BesideInScripts => if answer {
                Stage::FoundInScripts
            } else {
                Stage::Home
            },
            Stage::Home => if answer {
                self.common_from(0)
            } else {
                Stage::Missing
            },
            Stage::Common(i) => if answer {
                Stage::FoundCommon(i)
            } else {
                self.common_from(i + 1)
            },
            done => done,
        };
        SearchView { stage, common: self.common }
    }
}

/// The names that some lists of strings hold.
pub open spec fn name_lists(lists: Seq<Vec<String>>) -> Seq<Seq<Seq<char>>> {
    Seq::new(lists.len(), |i: int| text::texts(lists[i]@))
}

/// A copy of some names.
fn copy_names(names: &Vec<String>) -> (copy: Vec<String>)
    ensures
        text::texts(copy@) == text::texts(names@),
{
    let mut copy: Vec<String> = Vec::new();
    let mut i: usize = 0;
    while i < names.len()
        invariant
            i <= names@.len(),
            copy@.len() == i,
            forall|k: int| 0 <= k < i ==> (#[trigger] copy@[k])@ == names@[k]@,
        decreases names@.len() - i,
    {
        copy.push(names[i].clone());
        i += 1;
    }
    assert(text::texts(copy@) == text::texts(names@));
    copy
}

fn beside() -> (place: Place)
    ensures
        place@ == (PlaceView { base: Base::Here, parts: beside_parts() }),
{
    let place = Place { base: Base::Here, parts: vec!["mimir_bridge.py".to_owned()] };
    assert(place@.parts == beside_parts());
    place
}

fn beside_in_scripts() -> (place: Place)
    ensures
        place@ == (PlaceView { base: Base::Here, parts: scripts_parts() }),
{
    let place = Place {
        base: Base::Here,
        parts: vec!["scripts".to_owned(), "mimir_bridge.py".to_owned()],
    };
    assert(place@.parts == scripts_parts());
    place
}

impl View for BridgeSearch {
    type V = SearchView;

    closed spec fn view(&self) -> SearchView {
        SearchView { stage: self.stage, common: name_lists(self.common@) }
    }
}

impl BridgeSearch {
    /// The step to take now.
    pub fn step(&self) -> (step: Step)
        requires
            self@.wf(),
        ensures
            step@ == self@.step(),
    {
        match self.stage {
            Stage::Marker => {
                let place = Place {
                    base: Base::Here,
                    parts: vec![".mimir".to_owned(), "config.json".to_owned()],
                };
                assert(place@.parts == marker_parts());
                Step::Probe(place)
            },
            Stage::Climb => Step::Climb,
            Stage::Beside => Step::Probe(beside()),
            Stage::BesideInScripts => Step::Probe(beside_in_scripts()),
            Stage::Home => Step::AskHome,
            Stage::Common(i) => Step::Probe(
                Place { base: Base::Home, parts: copy_names(&self.common[i]) },
            ),
            Stage::FoundBeside => Step::Done(Some(beside())),
            Stage::FoundInScripts => Step::Done(Some(beside_in_scripts())),
            Stage::FoundCommon(i) => Step::Done(
                Some(Place { base: Base::Home, parts: copy_names(&self.common[i]) }),
            ),
            Stage::Missing => Step::Done(None),
        }
    }

    fn common_from(&self, i: usize) -> (stage: Stage)
        ensures
            stage == self@.common_from(i as int),
    {
        if i < self.common.len() {
            Stage::Common(i)
        } else {
            Stage::Missing
        }
    }

    /// Takes the answer to the step; a search that is over stays as it is.
    pub fn advance(&mut self, answer: bool)
        requires
            old(self)@.wf(),
        ensures
            final(self)@ == old(self)@.after(answer),
            final(self)@.wf(),
    {
        assert(self.common@.len() == self.common.len());
        let stage = match self.stage {
            Stage::Marker => if answer {
                Stage::Beside
            } else {
                Stage::Climb
            },
            Stage::Climb => if answer {
                Stage::Marker
            } else {
                Stage::Home
            },
            Stage::Beside => if answer {
                Stage::FoundBeside
            } else {
                Stage::BesideInScripts
            },
            Stage::BesideInScripts => if answer {
                Stage::FoundInScripts
            } else {
                Stage::Home
            },
            Stage::Home => if answer {
                self.common_from(0)
            } else {
                Stage::Missing
            },
            Stage::Common(i) => if answer {
                Stage::FoundCommon(i)
            } else {
                self.common_from(i + 1)
            },
            done => done,
        };
        self.stage = stage;
    }
}

/// The search of the tool for the bridge script.
///
/// It goes up from the working directory to the nearest directory with a
/// `.mimir/config.json`, looks for `mimir_bridge.py` there and in its `scripts`, and then
/// at the common locations below the home directory.
pub fn detect_bridge_path() -> (search: BridgeSearch)
    ensures
        search@ == (SearchView { stage: Stage::Marker, common: tool_common() }),
        search@.wf(),
{
    let common = vec![
        vec!["Documents".to_owned(), "Mimir".to_owned(), "mimir_bridge.py".to_owned()],
        vec![
            ".local".to_owned(),
            "share".to_owned(),
            "mimir".to_owned(),
            "mimir_bridge.py".to_owned(),
        ],
    ];
    proof {
        let names = name_lists(common@);
        assert(names[0] =~= tool_common()[0]);
        assert(names[1] =~= tool_common()[1]);
        assert(names =~= tool_common());
    }
    BridgeSearch { stage: Stage::Marker, common }
}

/// The search of the agent for the bridge script: that of the tool.
pub fn detect_mimir_bridge() -> (search: BridgeSearch)
    ensures
        search@ == (SearchView { stage: Stage::Marker, common: tool_common() }),
        search@.wf(),
{
    detect_bridge_path()
}

/// What a search can see of the files.
pub struct World {
    /// How many directories lie above the working directory.
    pub height: nat,
    /// Whether the file exists that the names lead to from the directory so many levels
    /// above the working directory.
    pub exists_above: spec_fn(nat, Seq<Seq<char>>) -> bool,
    /// Whether there is a home directory.
    pub has_home: bool,
    /// Whether the file exists that the names lead to from the home directory.
    pub exists_at_home: spec_fn(Seq<Seq<char>>) -> bool,
}

/// A file that a search found: a place, seen from the directory so many levels above the
/// working directory.
pub struct Found {
    pub up: nat,
    pub place: PlaceView,
}

impl World {
    /// Whether the place exists, seen from `up` levels above the working directory.
    pub open spec fn holds(self, up: nat, place: PlaceView) -> bool {
        match place.base {
            Base::Here => (self.exists_above)(up, place.parts),
            Base::Home => self.has_home && (self.exists_at_home)(place.parts),
        }
    }

    /// The answer to a step taken `up` levels above the working directory.
    pub open spec fn answer(self, up: nat, step: StepView) -> bool {
        match step {
            StepView::Probe(place) => match place.base {
                Base::Here => (self.exists_above)(up, place.parts),
                Base::Home => (self.exists_at_home)(place.parts),
            },
            StepView::Climb => up < self.height,
            StepView::AskHome => self.has_home,
            StepView::Done(_) => false,
        }
    }

    /// Whether the directory `up` levels above the working directory holds the marker.
    pub open spec fn marked(self, up: nat) -> bool {
        up <= self.height && (self.exists_above)(up, marker_parts())
    }

    /// Whether `up` is the nearest directory with the marker.
    pub open spec fn nearest(self, up: nat) -> bool {
        self.marked(up) && forall|lower: nat| lower < up ==> !#[trigger] self.marked(lower)
    }

    /// The script beside the marker in the directory `up` levels above.
    pub open spec fn beside(self, up: nat) -> Option<Found> {
        if (self.exists_above)(up, beside_parts()) {
            Some(Found { up, place: PlaceView { base: Base::Here, parts: beside_parts() } })
        } else if (self.exists_above)(up, scripts_parts()) {
            Some(Found { up, place: PlaceView { base: Base::Here, parts: scripts_parts() } })
        } else {
            None
        }
    }

    /// The first of the common locations from `i` on at which the script lies, for a search
    /// that has gone up to `up`.
    pub open spec fn common(self, common: Seq<Seq<Seq<char>>>, i: int, up: nat) -> Option<Found>
        decreases common.len() - i,
    {
        if i < 0 || i >= common.len() {
            None
        } else if (self.exists_at_home)(common[i]) {
            Some(Found { up, place: PlaceView { base: Base::Home, parts: common[i] } })
        } else {
            self.common(common, i + 1, up)
        }
    }

    /// The common location at which the script lies, where there is a home directory.
    pub open spec fn fallback(self, common: Seq<Seq<Seq<char>>>, up: nat) -> Option<Found> {
        if self.has_home {
            self.common(common, 0, up)
        } else {
            None
        }
    }
}

/// How much of a search is left at a stage, in one directory.
pub open spec fn stage_rank(search: SearchView) -> nat {
    let n = search.common.len();
    match search.stage {
        Stage::Marker => n + 5,
        Stage::Beside => n + 4,
        Stage::Climb => n + 3,
        Stage::BesideInScripts => n + 3,
        Stage::Home => n + 2,
        Stage::Common(i) => if i < n {
            (n - i) as nat
        } else {
            1
        },
        _ => 0,
    }
}

/// What a search comes to that stands `up` levels above the working directory, when each of
/// its steps is answered as the world has it.
pub open spec fn run(world: World, search: SearchView, up: nat) -> Option<Found>
    decreases
            if up <= world.height {
                (world.height - up) as nat
            } else {
                0
            },
            stage_rank(search),
        when search.wf()
{
    match search.step() {
        StepView::Done(Some(place)) => Some(Found { up, place }),
        StepView::Done(None) => None,
        step => {
            let answer = world.answer(up, step);
            let above = if step is Climb && answer {
                up + 1
            } else {
                up
            };
            run(world, search.after(answer), above)
        },
    }
}

/// The search finds the script beside the nearest marker, and the common locations do not
/// matter then.
pub proof fn law_nearest_marker_decides(world: World, search: SearchView, up: nat)
    requires
        search.wf(),
        search.stage == Stage::Marker,
        world.nearest(up),
        world.beside(up) is Some,
    ensures
        run(world, search, 0) == world.beside(up),
{
    lemma_climbs_to_marker(world, search, 0, up);
    lemma_run_beside(world, search, up);
}

/// Where the nearest marker has no script beside it, the search goes no further up but on
/// to the common locations.
pub proof fn law_marker_without_script(world: World, search: SearchView, up: nat)
    requires
        search.wf(),
        search.stage == Stage::Marker,
        world.nearest(up),
        world.beside(up) is None,
    ensures
        run(world, search, 0) == world.fallback(search.common, up),
{
    lemma_climbs_to_marker(world, search, 0, up);
    lemma_run_beside(world, search, up);
}

/// Where no directory on the way up holds the marker, the common locations decide.
pub proof fn law_no_marker(world: World, search: SearchView)
    requires
        search.wf(),
        search.stage == Stage::Marker,
        forall|up: nat| !#[trigger] world.marked(up),
    ensures
        run(world, search, 0) == world.fallback(search.common, world.height),
{
    lemma_climbs_to_top(world, search, 0);
}

/// The search ends with the script beside the nearest marker, or else with the first common
/// location at which it lies, or else with nothing.
pub proof fn law_search_order(world: World, search: SearchView)
    requires
        search.wf(),
        search.stage == Stage::Marker,
    ensures
        (exists|up: nat| #[trigger] world.nearest(up) && run(world, search, 0) == match world.beside(up) {
            Some(found) => Some(found),
            None => world.fallback(search.common, up),
        }) || (forall|up: nat| !#[trigger] world.marked(up)) && run(world, search, 0)
            == world.fallback(search.common, world.height),
{
    if exists|up: nat| #[trigger] world.marked(up) {
        let marked = choose|up: nat| #[trigger] world.marked(up);
        lemma_nearest(world, marked);
        let up = choose|up: nat| #[trigger] world.nearest(up);
        lemma_climbs_to_marker(world, search, 0, up);
        lemma_run_beside(world, search, up);
    } else {
        law_no_marker(world, search);
    }
}

/// What a search finds exists.
pub proof fn law_found_exists(world: World, search: SearchView)
    requires
        search.wf(),
        search.stage == Stage::Marker,
    ensures
        run(world, search, 0) matches Some(found) ==> world.holds(found.up, found.place),
{
    law_search_order(world, search);
    lemma_common_exists(world, search.common, 0, world.height);
    if exists|up: nat| #[trigger] world.nearest(up) && run(world, search, 0) == match world.beside(up) {
        Some(found) => Some(found),
        None => world.fallback(search.common, up),
    } {
        let up = choose|up: nat| #[trigger]
            world.nearest(up) && run(world, search, 0) == match world.beside(up) {
                Some(found) => Some(found),
                None => world.fallback(search.common, up),
            };
        lemma_common_exists(world, search.common, 0, up);
    }
}

/// A search that finds nothing has seen that the script lies at no common location, where
/// there is a home directory.
pub proof fn law_nothing_found(world: World, search: SearchView)
    requires
        search.wf(),
        search.stage == Stage::Marker,
        run(world, search, 0) is None,
        world.has_home,
    ensures
        forall|i: int|
            0 <= i < search.common.len() ==> !(world.exists_at_home)(#[trigger] search.common[i]),
{
    law_search_order(world, search);
    if exists|up: nat| #[trigger] world.nearest(up) && run(world, search, 0) == match world.beside(up) {
        Some(found) => Some(found),
        None => world.fallback(search.common, up),
    } {
        let up = choose|up: nat| #[trigger]
            world.nearest(up) && run(world, search, 0) == match world.beside(up) {
                Some(found) => Some(found),
                None => world.fallback(search.common, up),
            };
        lemma_common_none(world, search.common, 0, up);
    } else {
        lemma_common_none(world, search.common, 0, world.height);
    }
}

/// The agent finds what the tool finds, whatever the files.
pub proof fn law_agent_finds_what_the_tool_finds(world: World)
    ensures
        forall|agent: BridgeSearch, tool: BridgeSearch|
            call_ensures(detect_mimir_bridge, (), agent) && call_ensures(
                detect_bridge_path,
                (),
                tool,
            ) ==> #[trigger] run(world, agent@, 0) == #[trigger] run(world, tool@, 0),
{
}

proof fn lemma_nearest(world: World, up: nat)
    requires
        world.marked(up),
    ensures
        exists|nearest: nat| #[trigger] world.nearest(nearest),
    decreases up,
{
    if exists|lower: nat| lower < up && #[trigger] world.marked(lower) {
        let lower = choose|lower: nat| lower < up && #[trigger] world.marked(lower);
        lemma_nearest(world, lower);
    } else {
        assert(world.nearest(up));
    }
}

proof fn lemma_common_exists(world: World, common: Seq<Seq<Seq<char>>>, i: int, up: nat)
    ensures
        world.common(common, i, up) matches Some(found) ==> found.place.base == Base::Home && (
        world.exists_at_home)(found.place.parts),
    decreases common.len() - i,
{
    if 0 <= i < common.len() {
        lemma_common_exists(world, common, i + 1, up);
    }
}

proof fn lemma_common_none(world: World, common: Seq<Seq<Seq<char>>>, i: int, up: nat)
    requires
        0 <= i <= common.len(),
        world.common(common, i, up) is None,
    ensures
        forall|k: int| i <= k < common.len() ==> !(world.exists_at_home)(#[trigger] common[k]),
    decreases common.len() - i,
{
    if i < common.len() {
        lemma_common_none(world, common, i + 1, up);
    }
}

proof fn lemma_climbs_to_marker(world: World, search: SearchView, from: nat, up: nat)
    requires
        search.wf(),
        search.stage == Stage::Marker,
        from <= up,
        world.nearest(up),
    ensures
        run(world, search, from) == run(world, search, up),
    decreases up - from,
{
    if from < up {
        assert(!world.marked(from));
        let climb = search.after(false);
        assert(run(world, search, from) == run(world, climb, from));
        assert(climb.after(true) == search);
        assert(run(world, climb, from) == run(world, search, from + 1));
        lemma_climbs_to_marker(world, search, from + 1, up);
    }
}

proof fn lemma_climbs_to_top(world: World, search: SearchView, from: nat)
    requires
        search.wf(),
        search.stage == Stage::Marker,
        from <= world.height,
        forall|up: nat| !#[trigger] world.marked(up),
    ensures
        run(world, search, from) == world.fallback(search.common, world.height),
    decreases world.height - from,
{
    assert(!world.marked(from));
    let climb = search.after(false);
    assert(run(world, search, from) == run(world, climb, from));
    if from < world.height {
        assert(climb.after(true) == search);
        assert(run(world, climb, from) == run(world, search, from + 1));
        lemma_climbs_to_top(world, search, from + 1);
    } else {
        let home = climb.after(false);
        assert(run(world, climb, from) == run(world, home, from));
        lemma_run_home(world, home, from);
    }
}

proof fn lemma_run_beside(world: World, search: SearchView, up: nat)
    requires
        search.wf(),
        search.stage == Stage::Marker,
        world.marked(up),
    ensures
        run(world, search, up) == match world.beside(up) {
            Some(found) => Some(found),
            None => world.fallback(search.common, up),
        },
{
    let beside = search.after(true);
    assert(run(world, search, up) == run(world, beside, up));
    if (world.exists_above)(up, beside_parts()) {
        let found = beside.after(true);
        assert(run(world, beside, up) == run(world, found, up));
    } else {
        let scripts = beside.after(false);
        assert(run(world, beside, up) == run(world, scripts, up));
        if (world.exists_above)(up, scripts_parts()) {
            let found = scripts.after(true);
            assert(run(world, scripts, up) == run(world, found, up));
        } else {
            let home = scripts.after(false);
            assert(run(world, scripts, up) == run(world, home, up));
            lemma_run_home(world, home, up);
        }
    }
}

proof fn lemma_run_home(world: World, search: SearchView, up: nat)
    requires
        search.wf(),
        search.stage == Stage::Home,
    ensures
        run(world, search, up) == world.fallback(search.common, up),
{
    let next = search.after(world.has_home);
    assert(run(world, search, up) == run(world, next, up));
    if world.has_home {
        lemma_run_common(world, next, 0, up);
    }
}

proof fn lemma_run_common(world: World, search: SearchView, i: int, up: nat)
    requires
        search.wf(),
        0 <= i <= search.common.len(),
        search.stage == search.common_from(i),
    ensures
        run(world, search, up) == world.common(search.common, i, up),
    decreases search.common.len() - i,
{
    if i < search.common.len() {
        let seen = (world.exists_at_home)(search.common[i]);
        let next = search.after(seen);
        assert(run(world, search, up) == run(world, next, up));
        if !seen {
            lemma_run_common(world, next, i + 1, up);
        }
    }
}

/// What to do next in the search for a Python to run.
#[derive(Debug)]
pub enum PythonStep {
    /// See whether the command runs.
    Try(String),
    /// Use the command.
    Use(String),
}

/// The step that a [`PythonStep`] stands for.
pub enum PythonStepView {
    Try(Seq<char>),
    Use(Seq<char>),
}

impl View for PythonStep {
    type V = PythonStepView;

    open spec fn view(&self) -> PythonStepView {
        match self {
            PythonStep::Try(command) => PythonStepView::Try(command@),
            PythonStep::Use(command) => PythonStepView::Use(command@),
        }
    }
}

/// The step that follows on the answers given so far: `python3` is tried first and then
/// `python`; the first that runs is used, and `python3` where neither runs.
pub open spec fn python_step(answers: Seq<bool>) -> PythonStepView {
    if answers.len() == 0 {
        PythonStepView::Try("python3"@)
    } else if answers[0] {
        PythonStepView::Use("python3"@)
    } else if answers.len() == 1 {
        PythonStepView::Try("python"@)
    } else if answers[1] {
        PythonStepView::Use("python"@)
    } else {
        PythonStepView::Use("python3"@)
    }
}

/// The next step in the search for a Python, after the answers to the steps before.
pub fn find_python(answers: &Vec<bool>) -> (step: PythonStep)
    ensures
        step@ == python_step(answers@),
{
    if answers.len() == 0 {
        PythonStep::Try("python3".to_owned())
    } else if answers[0] {
        PythonStep::Use("python3".to_owned())
    } else if answers.len() == 1 {
        PythonStep::Try("python".to_owned())
    } else if answers[1] {
        PythonStep::Use("python".to_owned())
    } else {
        PythonStep::Use("python3".to_owned())
    }
}

/// The variables that the bridge runs with besides those of its parent: the root of the
/// project, and one key, that of OpenRouter before that of OpenAI.
pub open spec fn bridge_variables(
    project_root: Option<Seq<char>>,
    openrouter_key: Option<Seq<char>>,
    openai_key: Option<Seq<char>>,
) -> Seq<(Seq<char>, Seq<char>)> {
    let root = match project_root {
        Some(root) => seq![("PROJECT_ROOT"@, root)],
        None => seq![],
    };
    let key = match (openrouter_key, openai_key) {
        (Some(key), _) => seq![("OPENROUTER_API_KEY"@, key)],
        (None, Some(key)) => seq![("OPENAI_API_KEY"@, key)],
        (None, None) => seq![],
    };
    root + key
}

/// The variables to set for the bridge, from the working directory and the keys that the
/// environment holds.
pub fn bridge_environment(
    project_root: Option<&str>,
    openrouter_key: Option<&str>,
    openai_key: Option<&str>,
) -> (variables: Vec<(String, String)>)
    ensures
        text::entries(variables@) == bridge_variables(
            crate::json::opt_text(project_root),
            crate::json::opt_text(openrouter_key),
            crate::json::opt_text(openai_key),
        ),
{
    let mut variables: Vec<(String, String)> = Vec::new();
    if let Some(root) = project_root {
        variables.push(("PROJECT_ROOT".to_owned(), root.to_owned()));
    }
    if let Some(key) = openrouter_key {
        variables.push(("OPENROUTER_API_KEY".to_owned(), key.to_owned()));
    } else if let Some(key) = openai_key {
        variables.push(("OPENAI_API_KEY".to_owned(), key.to_owned()));
    }
    assert(text::entries(variables@) == bridge_variables(
        crate::json::opt_text(project_root),
        crate::json::opt_text(openrouter_key),
        crate::json::opt_text(openai_key),
    ));
    variables
}

/// The Python that the search comes to after some answers, where `runs` says of a command
/// whether it runs.
pub open spec fn python_found(runs: spec_fn(Seq<char>) -> bool, answers: Seq<bool>) -> Seq<char>
    decreases
            if answers.len() < 2 {
                2 - answers.len()
            } else {
                0
            },
{
    match python_step(answers) {
        PythonStepView::Try(command) => python_found(runs, answers.push(runs(command))),
        PythonStepView::Use(command) => command,
    }
}

/// The search comes to `python` where `python3` does not run and `python` does, and to
/// `python3` everywhere else.
pub proof fn law_python_found(runs: spec_fn(Seq<char>) -> bool)
    ensures
        python_found(runs, Seq::empty()) == "python"@ <==> !runs("python3"@) && runs("python"@),
        python_found(runs, Seq::empty()) == "python3"@ <==> runs("python3"@) || !runs("python"@),
{
    reveal_strlit("python");
    reveal_strlit("python3");
    assert("python"@.len() != "python3"@.len());
    reveal_with_fuel(python_found, 3);
}

/// The search is over after two answers at the most. Once it is over, it stays over with the
/// Python that it came to, whatever is answered after that.
pub proof fn law_python_stays(answers: Seq<bool>, more: Seq<bool>)
    ensures
        answers.len() >= 2 ==> python_step(answers) is Use,
        python_step(answers) is Use ==> python_step(answers + more) == python_step(answers),
{
}

/// Whether a variable holds a key.
pub open spec fn is_key(name: Seq<char>) -> bool {
    name == "OPENROUTER_API_KEY"@ || name == "OPENAI_API_KEY"@
}

/// Whether at most one of some variables holds a key.
pub open spec fn at_most_one_key(variables: Seq<(Seq<char>, Seq<char>)>) -> bool {
    forall|i: int, j: int|
        0 <= i < j < variables.len() ==> !(is_key((#[trigger] variables[i]).0) && is_key(
            (#[trigger] variables[j]).0,
        ))
}

/// At most one key is handed to the bridge: that of OpenRouter where there is one, and else
/// that of OpenAI where there is one.
pub proof fn law_one_key(
    project_root: Option<Seq<char>>,
    openrouter_key: Option<Seq<char>>,
    openai_key: Option<Seq<char>>,
)
    ensures
        at_most_one_key(bridge_variables(project_root, openrouter_key, openai_key)),
        openrouter_key matches Some(key) ==> bridge_variables(
            project_root,
            openrouter_key,
            openai_key,
        ).contains(("OPENROUTER_API_KEY"@, key)),
        openrouter_key is None ==> (openai_key matches Some(key) ==> bridge_variables(
            project_root,
            openrouter_key,
            openai_key,
        ).contains(("OPENAI_API_KEY"@, key))),
{
    reveal_strlit("PROJECT_ROOT");
    reveal_strlit("OPENROUTER_API_KEY");
    reveal_strlit("OPENAI_API_KEY");
    assert("PROJECT_ROOT"@.len() != "OPENROUTER_API_KEY"@.len());
    assert("PROJECT_ROOT"@.len() != "OPENAI_API_KEY"@.len());
    let variables = bridge_variables(project_root, openrouter_key, openai_key);
    if variables.len() > 0 {
        assert(variables.contains(variables.last()));
    }
}

/// Whether the bridge script lies at the names below the home directory.
pub open spec fn at_home(world: World, parts: Seq<Seq<char>>) -> bool {
    world.has_home && (world.exists_at_home)(parts)
}

/// The tool and the agent find the script by its place: beside the `.mimir/config.json` that is
/// nearest on the way up, then in `scripts` there, then in `~/Documents/Mimir`, then in
/// `~/.local/share/mimir`, and the first of these places that holds it is the one. A marker
/// farther up does not matter, nor does a script without a marker.
pub proof fn law_script_by_its_place(world: World, up: nat, marker: Seq<Seq<char>>)
    requires
        marker == seq![".mimir"@, "config.json"@],
        up <= world.height,
        forall|lower: nat| lower < up ==> !#[trigger] (world.exists_above)(lower, marker),
        (world.exists_above)(up, marker) || up == world.height,
    ensures
        ({
            let marked = (world.exists_above)(up, marker);
            let beside = seq!["mimir_bridge.py"@];
            let scripts = seq!["scripts"@, "mimir_bridge.py"@];
            let documents = seq!["Documents"@, "Mimir"@, "mimir_bridge.py"@];
            let share = seq![".local"@, "share"@, "mimir"@, "mimir_bridge.py"@];
            run(world, SearchView { stage: Stage::Marker, common: tool_common() }, 0) == if marked
                && (world.exists_above)(up, beside) {
                Some(Found { up, place: PlaceView { base: Base::Here, parts: beside } })
            } else if marked && (world.exists_above)(up, scripts) {
                Some(Found { up, place: PlaceView { base: Base::Here, parts: scripts } })
            } else if at_home(world, documents) {
                Some(Found { up, place: PlaceView { base: Base::Home, parts: documents } })
            } else if at_home(world, share) {
                Some(Found { up, place: PlaceView { base: Base::Home, parts: share } })
            } else {
                None
            }
        }),
{
    let search = SearchView { stage: Stage::Marker, common: tool_common() };
    let marked = (world.exists_above)(up, marker);
    assert(marker_parts() =~= marker);
    assert forall|lower: nat| lower < up implies !#[trigger] world.marked(lower) by {
        assert(!(world.exists_above)(lower, marker_parts()));
    }
    reveal_with_fuel(World::common, 3);
    if marked {
        assert(world.nearest(up));
        lemma_climbs_to_marker(world, search, 0, up);
        lemma_run_beside(world, search, up);
    } else {
        assert forall|any: nat| !#[trigger] world.marked(any) by {
            if any < up {
                assert(!world.marked(any));
            }
        }
        law_no_marker(world, search);
    }
}

/// A search asks for what it wants to know next: the marker first, the parent directory where
/// there is no marker, the scripts beside a marker, the home directory, and the common
/// locations one by one.
pub proof fn law_steps_of_a_search(search: SearchView, answer: bool)
    requires
        search.wf(),
    ensures
        search.after(answer).common == search.common,
        search.after(answer).wf(),
        search.stage == Stage::Marker ==> search.step() == StepView::Probe(
            PlaceView { base: Base::Here, parts: seq![".mimir"@, "config.json"@] },
        ) && search.after(answer).stage == (if answer {
            Stage::Beside
        } else {
            Stage::Climb
        }),
        search.step() is Climb ==> (search.after(answer).stage == Stage::Marker <==> answer) && (
        search.after(answer).step() is AskHome <==> !answer),
        search.step() is AskHome && !answer ==> search.after(answer).step() == StepView::Done(None),
        search.step() is Done ==> search.after(answer) == search,
        search.step() matches StepView::Probe(place) ==> (answer && search.stage != Stage::Marker
            ==> search.after(answer).step() == StepView::Done(Some(place))),
        search.step() matches StepView::Probe(place) ==> (!answer ==> search.after(answer).step()
            != StepView::Done(Some(place))),
{
}

/// `python3` is tried first, and `python` only where it does not run.
pub proof fn law_python_order(answers: Seq<bool>)
    ensures
        answers.len() == 0 ==> python_step(answers) == PythonStepView::Try("python3"@),
        answers.len() > 0 && answers[0] ==> python_step(answers) == PythonStepView::Use("python3"@),
        answers.len() == 1 && !answers[0] ==> python_step(answers) == PythonStepView::Try(
            "python"@,
        ),
{
}

/// The bridge is told the root of the project where there is one, whatever the keys, and is told
/// of none where there is none.
pub proof fn law_root_is_told(
    project_root: Option<Seq<char>>,
    openrouter_key: Option<Seq<char>>,
    openai_key: Option<Seq<char>>,
)
    ensures
        project_root matches Some(root) ==> bridge_variables(
            project_root,
            openrouter_key,
            openai_key,
        ).contains(("PROJECT_ROOT"@, root)),
        forall|i: int|
            0 <= i < bridge_variables(project_root, openrouter_key, openai_key).len() && (
            #[trigger] bridge_variables(project_root, openrouter_key, openai_key)[i]).0
                == "PROJECT_ROOT"@ ==> project_root == Some(
                bridge_variables(project_root, openrouter_key, openai_key)[i].1,
            ),
{
    reveal_strlit("PROJECT_ROOT");
    reveal_strlit("OPENROUTER_API_KEY");
    reveal_strlit("OPENAI_API_KEY");
    assert("PROJECT_ROOT"@.len() != "OPENROUTER_API_KEY"@.len());
    assert("PROJECT_ROOT"@.len() != "OPENAI_API_KEY"@.len());
    let variables = bridge_variables(project_root, openrouter_key, openai_key);
    if let Some(root) = project_root {
        assert(variables[0] == ("PROJECT_ROOT"@, root));
    }
}

/// The bridge is told nothing but the root of the project and a key: there is one variable for
/// the root where there is one, and one for a key where there is one, and a variable holds what
/// was given for it.
pub proof fn law_nothing_else_is_told(
    project_root: Option<Seq<char>>,
    openrouter_key: Option<Seq<char>>,
    openai_key: Option<Seq<char>>,
)
    ensures
        bridge_variables(project_root, openrouter_key, openai_key).len() == (
        if project_root is Some {
            1int
        } else {
            0
        }) + (if openrouter_key is Some || openai_key is Some {
            1int
        } else {
            0
        }),
        forall|name: Seq<char>, value: Seq<char>|
            #[trigger] bridge_variables(project_root, openrouter_key, openai_key).contains(
                (name, value),
            ) ==> {
                ||| name == "PROJECT_ROOT"@ && project_root == Some(value)
                ||| name == "OPENROUTER_API_KEY"@ && openrouter_key == Some(value)
                ||| name == "OPENAI_API_KEY"@ && openai_key == Some(value) && openrouter_key is None
            },
{
}

/// A place, a step and a Python step stand for what they hold.
pub proof fn law_steps_stand_for_what_they_hold(place: Place, command: String)
    ensures
        place@.base == place.base,
        place@.parts.len() == place.parts@.len(),
        forall|i: int|
            0 <= i < place.parts@.len() ==> #[trigger] place@.parts[i] == place.parts@[i]@,
        Step::Probe(place)@ == StepView::Probe(place@),
        Step::Climb@ == StepView::Climb,
        Step::AskHome@ == StepView::AskHome,
        Step::Done(Some(place))@ == StepView::Done(Some(place@)),
        Step::Done(None)@ == StepView::Done(None),
        PythonStep::Try(command)@ == PythonStepView::Try(command@),
        PythonStep::Use(command)@ == PythonStepView::Use(command@),
{
}

} // verus!
