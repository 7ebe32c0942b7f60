//! The scene graph, story variables, condition evaluation and the scene
//! player state machine.
use vstd::prelude::*;

use crate::components::{NpcId, NpcImage, NpcVoice};
use crate::events::{EndSceneEvent, SpawnNpcEvent, StartBattleEvent, StaticCommandsEvent, UpdateNpcEvent};
use crate::static_commands::{
    spawn_events, spawned,
    battle_ids, battles_of, entries_after, npc_updates, updates_of, variables_after, CharacterUpdate, Definitions,
    StaticCommands,
};
use crate::table::{Duplicate, Table, TableKey};

verus! {

/// Names a section of a scene's dialogue graph.
#[derive(Debug, Hash, Clone, PartialEq, Eq)]
pub struct SceneSectionId(pub String);

impl View for SceneSectionId {
    type V = Seq<char>;

    open spec fn view(&self) -> Seq<char> {
        self.0@
    }
}

impl Duplicate for SceneSectionId {
    fn duplicate(&self) -> (r: Self) {
        SceneSectionId(self.0.clone())
    }
}

impl TableKey for SceneSectionId {
    fn key_eq(&self, other: &Self) -> (r: bool) {
        self.0 == other.0
    }
}

impl Default for SceneSectionId {
    /// The section a scene starts at unless an entry point says otherwise.
    fn default() -> (r: Self)
        ensures
            r@ == "start"@,
    {
        SceneSectionId("start".to_owned())
    }
}

/// Names a scene.
#[derive(Debug, Hash, Clone, PartialEq, Eq)]
pub struct SceneId(pub String);

impl View for SceneId {
    type V = Seq<char>;

    open spec fn view(&self) -> Seq<char> {
        self.0@
    }
}

impl Duplicate for SceneId {
    fn duplicate(&self) -> (r: Self) {
        SceneId(self.0.clone())
    }
}

impl TableKey for SceneId {
    fn key_eq(&self, other: &Self) -> (r: bool) {
        self.0 == other.0
    }
}

impl SceneId {
    pub fn new(s: &str) -> (r: Self)
        ensures
            r@ == s@,
    {
        SceneId(s.to_owned())
    }
}

/// The components of a bookmark: scene, section, line and response.
pub type BookmarkView = (Seq<char>, Option<Seq<char>>, Option<usize>, Option<usize>);

/// Identifies one site of the scene graph whose commands run at most once.
#[derive(Debug, Hash, Clone, PartialEq, Eq)]
pub struct SceneBookmark {
    scene: SceneId,
    section: Option<SceneSectionId>,
    line: Option<usize>,
    response: Option<usize>,
}

pub open spec fn section_view(s: Option<SceneSectionId>) -> Option<Seq<char>> {
    match s {
        Some(s) => Some(s@),
        None => None,
    }
}

impl View for SceneBookmark {
    type V = BookmarkView;

    closed spec fn view(&self) -> BookmarkView {
        (self.scene@, section_view(self.section), self.line, self.response)
    }
}

fn duplicate_section(s: &Option<SceneSectionId>) -> (r: Option<SceneSectionId>)
    ensures
        r == *s,
{
    match s {
        Some(k) => Some(k.duplicate()),
        None => None,
    }
}

fn same_section(a: &Option<SceneSectionId>, b: &Option<SceneSectionId>) -> (r: bool)
    ensures
        r == (section_view(*a) == section_view(*b)),
{
    match (a, b) {
        (Some(x), Some(y)) => x.key_eq(y),
        (None, None) => true,
        _ => false,
    }
}

impl Duplicate for SceneBookmark {
    fn duplicate(&self) -> (r: Self) {
        SceneBookmark {
            scene: self.scene.duplicate(),
            section: duplicate_section(&self.section),
            line: self.line,
            response: self.response,
        }
    }
}

impl TableKey for SceneBookmark {
    fn key_eq(&self, other: &Self) -> (r: bool) {
        self.scene.key_eq(&other.scene) && same_section(&self.section, &other.section) && self.line
            == other.line && self.response == other.response
    }
}

impl SceneBookmark {
    pub fn new(
        scene: &SceneId,
        section: Option<&SceneSectionId>,
        line: Option<usize>,
        response: Option<usize>,
    ) -> (r: Self)
        ensures
            r@ == (scene@, match section {
                Some(s) => Some(s@),
                None => None,
            }, line, response),
    {
        let section = match section {
            Some(s) => Some(s.duplicate()),
            None => None,
        };
        SceneBookmark { scene: scene.duplicate(), section, line, response }
    }
}

/// A character that a scene defines.
#[derive(Debug, Clone, PartialEq, Eq)]
pub struct Character {
    pub name: String,
    pub image: NpcImage,
    pub voice: NpcVoice,
}

impl Default for Character {
    fn default() -> (r: Self)
        ensures
            r.name@ == "?"@,
            r.image.0@ == "images/mysterious.png"@,
            r.voice.0@ == "default"@,
    {
        Character { name: "?".to_owned(), image: NpcImage::default(), voice: NpcVoice::default() }
    }
}

impl Duplicate for Character {
    fn duplicate(&self) -> (r: Self) {
        Character { name: self.name.clone(), image: self.image.duplicate(), voice: self.voice.duplicate() }
    }
}

/// One node of the dialogue graph: lines spoken in order, then the
/// responses on offer, optional commands, and where to go when there are no
/// responses.
#[derive(Debug)]
pub struct Dialogue {
    pub lines: Vec<Line>,
    pub responses: Vec<Response>,
    pub commands: Option<StaticCommands>,
    pub continue_to: Option<SceneSectionId>,
}

/// A line of dialogue and who speaks it.
#[derive(Debug)]
pub struct Line {
    pub from: NpcId,
    pub text: String,
    pub commands: Option<StaticCommands>,
}

/// A response the player may choose, shown only when all its conditions hold.
#[derive(Debug)]
pub struct Response {
    pub text: String,
    pub link: Option<SceneSectionId>,
    pub skill_check: Option<SkillCheck>,
    pub conditions: Vec<Condition>,
    pub commands: Option<StaticCommands>,
}

/// A skill test attached to a response, with where to go on failure.
#[derive(Debug, Clone, PartialEq, Eq)]
pub struct SkillCheck {
    pub link_fail: SceneSectionId,
    pub link_crit_fail: Option<SceneSectionId>,
    pub modifier: Option<i32>,
    pub check: Skill,
}

#[derive(Debug, Clone, Copy, PartialEq, Eq, Structural)]
pub enum Skill {
    Strength,
    Perception,
    Endurance,
    Charisma,
    Intelligence,
    Agility,
    Luck,
}

/// A test on the story state that gates a response.
#[derive(Debug)]
pub enum Condition {
    /// The variable is set, to exactly this value.
    VarEquals { variable: String, value: String },
    /// At least one of the conditions holds; false when there are none.
    Any { conditions: Vec<Condition> },
    /// None of the conditions holds; true when there are none.
    Not { conditions: Vec<Condition> },
    /// Reserved: evaluating it is an error.
    HasItem,
    /// Reserved: evaluating it is an error.
    QuestStage,
}

/// What a condition evaluates to on the variables `vars`; none when a
/// reserved condition is reached.
pub open spec fn condition_value(c: Condition, vars: Map<Seq<char>, String>) -> Option<bool>
    decreases c,
{
    match c {
        Condition::VarEquals { variable, value } => Some(
            vars.contains_key(variable@) && vars[variable@]@ == value@,
        ),
        Condition::Any { conditions } => scan_conditions(conditions@, vars, true, true),
        Condition::Not { conditions } => scan_conditions(conditions@, vars, true, false),
        _ => None,
    }
}

/// Evaluates `cs` from the first: stops with `on_stop` at the first whose
/// value is `stop_on`, with none at the first reserved one, and gives
/// `!on_stop` when it reaches the end.
pub open spec fn scan_conditions(
    cs: Seq<Condition>,
    vars: Map<Seq<char>, String>,
    stop_on: bool,
    on_stop: bool,
) -> Option<bool>
    decreases cs,
{
    if cs.len() == 0 {
        Some(!on_stop)
    } else {
        match condition_value(cs[0], vars) {
            None => None,
            Some(b) => if b == stop_on {
                Some(on_stop)
            } else {
                scan_conditions(cs.subrange(1, cs.len() as int), vars, stop_on, on_stop)
            },
        }
    }
}

/// Whether a response is shown: all its conditions hold.
pub open spec fn response_shown(r: Response, vars: Map<Seq<char>, String>) -> Option<bool> {
    scan_conditions(r.conditions@, vars, false, false)
}

/// Loading a scene a second time leaves the scenes as one load left them.
pub proof fn lemma_reload_scene_idempotent(scenes: Map<Seq<char>, Scene>, scene: Scene)
    ensures
        scenes.insert(scene.id@, scene).insert(scene.id@, scene) == scenes.insert(scene.id@, scene),
{
    assert(scenes.insert(scene.id@, scene).insert(scene.id@, scene) =~= scenes.insert(scene.id@, scene));
}

/// Errors that malformed content or a misuse of the player can cause.
#[derive(Debug, Clone, Copy, PartialEq, Eq, Structural)]
pub enum SceneError {
    /// The scene being played is not loaded.
    UnknownScene,
    /// The current section does not exist in the scene.
    UnknownSection,
    /// The line cursor is past the last line of the section.
    LinePastEnd,
    /// A reserved condition was reached.
    UnsupportedCondition,
    /// Commands were signalled while no scene is playing.
    NoScenePlaying,
}

/// A condition outcome as a result: a reserved condition is an error.
pub open spec fn as_result(v: Option<bool>) -> Result<bool, SceneError> {
    match v {
        Some(b) => Ok(b),
        None => Err(SceneError::UnsupportedCondition),
    }
}

fn scan(conditions: &Vec<Condition>, scene_manager: &SceneManager, stop_on: bool, on_stop: bool) -> (r: Result<bool, SceneError>)
    ensures
        r == as_result(scan_conditions(conditions@, scene_manager.spec_variables(), stop_on, on_stop)),
    decreases conditions,
{
    let ghost vars = scene_manager.spec_variables();
    let ghost cs = conditions@;
    proof {
        assert(cs.subrange(0, cs.len() as int) =~= cs);
    }
    let mut i: usize = 0;
    while i < conditions.len()
        invariant
            i <= cs.len(),
            cs == conditions@,
            vars == scene_manager.spec_variables(),
            scan_conditions(cs, vars, stop_on, on_stop) == scan_conditions(
                cs.subrange(i as int, cs.len() as int),
                vars,
                stop_on,
                on_stop,
            ),
        decreases cs.len() - i,
    {
        let ghost rest = cs.subrange(i as int, cs.len() as int);
        proof {
            assert(rest[0] == cs[i as int]);
            assert(rest.subrange(1, rest.len() as int) =~= cs.subrange(i + 1, cs.len() as int));
        }
        let v = conditions[i].evaluate(scene_manager);
        proof {
            assert(scan_conditions(rest, vars, stop_on, on_stop) == match condition_value(rest[0], vars) {
                None => None,
                Some(b) => if b == stop_on {
                    Some(on_stop)
                } else {
                    scan_conditions(rest.subrange(1, rest.len() as int), vars, stop_on, on_stop)
                },
            });
        }
        match v {
            Ok(b) => {
                if b == stop_on {
                    return Ok(on_stop);
                }
            },
            Err(e) => {
                return Err(e);
            },
        }
        i = i + 1;
    }
    Ok(!on_stop)
}

impl Condition {
    pub fn evaluate(&self, scene_manager: &SceneManager) -> (r: Result<bool, SceneError>)
        ensures
            r == as_result(condition_value(*self, scene_manager.spec_variables())),
        decreases self,
    {
        match self {
            Condition::VarEquals { variable, value } => match scene_manager.get_variable(variable.as_str()) {
                Some(v) => Ok(*v == *value),
                None => Ok(false),
            },
            Condition::Any { conditions } => scan(conditions, scene_manager, true, true),
            Condition::Not { conditions } => scan(conditions, scene_manager, true, false),
            Condition::HasItem => Err(SceneError::UnsupportedCondition),
            Condition::QuestStage => Err(SceneError::UnsupportedCondition),
        }
    }
}

impl Response {
    pub fn evaluate_conditions(&self, scene_manager: &SceneManager) -> (r: Result<bool, SceneError>)
        ensures
            r == as_result(response_shown(*self, scene_manager.spec_variables())),
    {
        scan(&self.conditions, scene_manager, false, false)
    }
}

/// A scene: its id, music, the characters it defines, its dialogue graph
/// by section, and scene-level commands.
#[derive(Debug)]
pub struct Scene {
    pub id: SceneId,
    pub music: Option<String>,
    pub definitions: Definitions,
    pub dialogue: Table<SceneSectionId, Dialogue>,
    pub commands: Option<StaticCommands>,
}

/// The loaded scenes, the story variables and the scene entry points.
#[derive(Debug)]
pub struct SceneManager {
    scenes: Table<SceneId, Scene>,
    variables: Table<String, String>,
    entries: Table<SceneId, SceneSectionId>,
}

impl SceneManager {
    pub closed spec fn spec_scenes(&self) -> Map<Seq<char>, Scene> {
        self.scenes@
    }

    pub closed spec fn spec_variables(&self) -> Map<Seq<char>, String> {
        self.variables@
    }

    pub closed spec fn spec_entries(&self) -> Map<Seq<char>, SceneSectionId> {
        self.entries@
    }

    pub fn new() -> (r: Self)
        ensures
            r.spec_scenes() == Map::<Seq<char>, Scene>::empty(),
            r.spec_variables() == Map::<Seq<char>, String>::empty(),
            r.spec_entries() == Map::<Seq<char>, SceneSectionId>::empty(),
    {
        SceneManager { scenes: Table::new(), variables: Table::new(), entries: Table::new() }
    }

    /// Adds a parsed scene under its id, replacing a scene with the same id.
    pub fn load_scene(&mut self, scene: Scene)
        ensures
            final(self).spec_scenes() == old(self).spec_scenes().insert(scene.id@, scene),
            final(self).spec_variables() == old(self).spec_variables(),
            final(self).spec_entries() == old(self).spec_entries(),
    {
        let id = scene.id.duplicate();
        self.scenes.insert(id, scene);
    }

    /// The manager with `scene` added, as `load_scene` adds it.
    pub fn with_scene(self, scene: Scene) -> (r: Self)
        ensures
            r.spec_scenes() == self.spec_scenes().insert(scene.id@, scene),
            r.spec_variables() == self.spec_variables(),
            r.spec_entries() == self.spec_entries(),
    {
        let mut m = self;
        m.load_scene(scene);
        m
    }

    pub fn get_scene(&self, scene_id: &SceneId) -> (r: Option<&Scene>)
        ensures
            match r {
                Some(s) => self.spec_scenes().contains_key(scene_id@) && *s == self.spec_scenes()[scene_id@],
                None => !self.spec_scenes().contains_key(scene_id@),
            },
    {
        self.scenes.get(scene_id)
    }

    /// Sets each of `variables`, overwriting earlier values.
    pub fn update_variables(&mut self, variables: &Table<String, String>)
        ensures
            final(self).spec_variables() == old(self).spec_variables().union_prefer_right(variables@),
            final(self).spec_scenes() == old(self).spec_scenes(),
            final(self).spec_entries() == old(self).spec_entries(),
    {
        self.variables.extend_from(variables)
    }

    pub fn get_variable(&self, variable: &str) -> (r: Option<&String>)
        ensures
            match r {
                Some(v) => self.spec_variables().contains_key(variable@) && *v == self.spec_variables()[variable@],
                None => !self.spec_variables().contains_key(variable@),
            },
    {
        let key = variable.to_owned();
        self.variables.get(&key)
    }

    /// Makes `key` the section that `scene` starts at, returning the entry
    /// point it replaced.
    pub fn update_scene_entry(&mut self, scene: SceneId, key: SceneSectionId) -> (r: Option<SceneSectionId>)
        ensures
            final(self).spec_entries() == old(self).spec_entries().insert(scene@, key),
            r == (if old(self).spec_entries().contains_key(scene@) {
                Some(old(self).spec_entries()[scene@])
            } else {
                None
            }),
            final(self).spec_scenes() == old(self).spec_scenes(),
            final(self).spec_variables() == old(self).spec_variables(),
    {
        self.entries.insert(scene, key)
    }

    pub fn get_scene_entry(&self, scene: &SceneId) -> (r: Option<&SceneSectionId>)
        ensures
            match r {
                Some(k) => self.spec_entries().contains_key(scene@) && *k == self.spec_entries()[scene@],
                None => !self.spec_entries().contains_key(scene@),
            },
    {
        self.entries.get(scene)
    }

    pub(crate) fn run_commands(
        &mut self,
        commands: &StaticCommands,
        start_battle_event: &mut Vec<StartBattleEvent>,
        update_npc_event: &mut Vec<UpdateNpcEvent>,
    )
        ensures
            final(self).spec_scenes() == old(self).spec_scenes(),
            final(self).spec_variables() == variables_after(Some(*commands), old(self).spec_variables()),
            final(self).spec_entries() == entries_after(Some(*commands), old(self).spec_entries()),
            battle_ids(final(start_battle_event)@) == battle_ids(old(start_battle_event)@) + battles_of(
                Some(*commands),
            ),
            npc_updates(final(update_npc_event)@) == npc_updates(old(update_npc_event)@) + updates_of(
                Some(*commands),
            ),
    {
        commands.apply(&mut self.variables, &mut self.entries, start_battle_event, update_npc_event)
    }
}

impl Default for SceneManager {
    fn default() -> (r: Self)
        ensures
            r.spec_scenes() == Map::<Seq<char>, Scene>::empty(),
            r.spec_variables() == Map::<Seq<char>, String>::empty(),
            r.spec_entries() == Map::<Seq<char>, SceneSectionId>::empty(),
    {
        SceneManager::new()
    }
}

/// The dialogue at section `key` of scene `scene`, when both exist.
pub open spec fn dialogue_at(scenes: Map<Seq<char>, Scene>, scene: Seq<char>, key: Seq<char>) -> Option<Dialogue> {
    if scenes.contains_key(scene) && scenes[scene].dialogue@.contains_key(key) {
        Some(scenes[scene].dialogue@[key])
    } else {
        None
    }
}

/// The commands at the site a bookmark names: a line, a response, or the
/// section itself.
pub open spec fn commands_at(scenes: Map<Seq<char>, Scene>, b: BookmarkView) -> Option<StaticCommands> {
    match b.1 {
        None => None,
        Some(key) => match dialogue_at(scenes, b.0, key) {
            None => None,
            Some(d) => match (b.2, b.3) {
                (Some(l), None) => if l < d.lines.len() {
                    d.lines@[l as int].commands
                } else {
                    None
                },
                (None, Some(r)) => if r < d.responses.len() {
                    d.responses@[r as int].commands
                } else {
                    None
                },
                (None, None) => d.commands,
                _ => None,
            },
        },
    }
}

pub open spec fn bookmarks_of(events: Seq<StaticCommandsEvent>) -> Seq<BookmarkView> {
    events.map_values(|e: StaticCommandsEvent| e.0@)
}

/// The bookmark signalled when the section's own commands are due.
pub open spec fn section_bookmarks(scene: Seq<char>, key: Seq<char>, d: Dialogue) -> Seq<BookmarkView> {
    if d.commands is Some {
        seq![(scene, Some(key), None::<usize>, None::<usize>)]
    } else {
        Seq::empty()
    }
}

/// Why the dialogue at a cursor in scene `scene` cannot be found.
pub open spec fn lookup_error(m: SceneManager, scene: Seq<char>) -> SceneError {
    if m.spec_scenes().contains_key(scene) {
        SceneError::UnknownSection
    } else {
        SceneError::UnknownScene
    }
}

/// Where a selection moves the cursor.
pub enum Advance {
    /// To the next line of the same section.
    NextLine,
    /// To the start of the named section.
    Section(Seq<char>),
    /// Nowhere: the scene ends.
    End,
}

/// The positions in `rs` of the responses shown, in order: those whose
/// conditions all hold; none when a reserved condition is reached in any.
pub open spec fn visible_indices(rs: Seq<Response>, vars: Map<Seq<char>, String>) -> Option<Seq<usize>>
    decreases rs.len(),
{
    if rs.len() == 0 {
        Some(Seq::empty())
    } else {
        match visible_indices(rs.drop_last(), vars) {
            None => None,
            Some(ix) => match response_shown(rs.last(), vars) {
                None => None,
                Some(true) => Some(ix.push((rs.len() - 1) as usize)),
                Some(false) => Some(ix),
            },
        }
    }
}

/// Whether line `line` of `d` is its last, where its responses are offered.
pub open spec fn at_last_line(line: usize, d: Dialogue) -> bool {
    d.lines.len() > 0 && line + 1 == d.lines.len()
}

/// Why selecting at line `line` of `d` fails, if it does: the line cursor
/// is past the last line, or at the last line a reserved condition is
/// reached among the responses.
pub open spec fn select_error(line: usize, d: Dialogue, vars: Map<Seq<char>, String>) -> Option<SceneError> {
    if d.lines.len() > 0 && line >= d.lines.len() {
        Some(SceneError::LinePastEnd)
    } else if at_last_line(line, d) && visible_indices(d.responses@, vars) is None {
        Some(SceneError::UnsupportedCondition)
    } else {
        None
    }
}

/// The position in `d.responses` of the response chosen by highlighting the
/// `hr`-th shown response at line `line`, when there is one.
pub open spec fn chosen_response(line: usize, hr: usize, d: Dialogue, vars: Map<Seq<char>, String>) -> Option<usize> {
    if at_last_line(line, d) {
        match visible_indices(d.responses@, vars) {
            Some(ix) => if hr < ix.len() {
                Some(ix[hr as int])
            } else {
                None
            },
            None => None,
        }
    } else {
        None
    }
}

/// What selecting does at line `line` with the `hr`-th shown response
/// highlighted, in order of precedence: a section without lines ends the
/// scene; a line that is not the last moves on to the next; then the chosen
/// response, if any, follows its link or ends the scene; then the section's
/// continuation; else the scene ends.
pub open spec fn select_advance(line: usize, hr: usize, d: Dialogue, vars: Map<Seq<char>, String>) -> Advance {
    if d.lines.len() == 0 {
        Advance::End
    } else if line + 1 < d.lines.len() {
        Advance::NextLine
    } else {
        match chosen_response(line, hr, d, vars) {
            Some(j) => match d.responses@[j as int].link {
                Some(l) => Advance::Section(l@),
                None => Advance::End,
            },
            None => match d.continue_to {
                Some(c) => Advance::Section(c@),
                None => Advance::End,
            },
        }
    }
}

/// The command sites that selecting signals: the current line's, then the
/// chosen response's (by its position among all the section's responses).
pub open spec fn select_bookmarks(
    scene: Seq<char>,
    key: Seq<char>,
    line: usize,
    hr: usize,
    d: Dialogue,
    vars: Map<Seq<char>, String>,
) -> Seq<BookmarkView> {
    if d.lines.len() == 0 || line >= d.lines.len() {
        Seq::empty()
    } else {
        let at_line = if d.lines@[line as int].commands is Some {
            seq![(scene, Some(key), Some(line), None::<usize>)]
        } else {
            Seq::<BookmarkView>::empty()
        };
        let at_response = match chosen_response(line, hr, d, vars) {
            Some(j) => if d.responses@[j as int].commands is Some {
                seq![(scene, Some(key), None::<usize>, Some(j))]
            } else {
                Seq::<BookmarkView>::empty()
            },
            None => Seq::<BookmarkView>::empty(),
        };
        at_line + at_response
    }
}

pub open spec fn end_events(adv: Advance) -> Seq<EndSceneEvent> {
    if adv is End {
        seq![EndSceneEvent]
    } else {
        Seq::empty()
    }
}

/// `q` is `p` with the cursor moved by `adv`; `hr` is the highlighted
/// response that stays when the cursor does not move.
pub open spec fn moved_by(p: ScenePlayer, q: ScenePlayer, hr: usize, adv: Advance) -> bool {
    &&& q.spec_scene() == p.spec_scene()
    &&& q.spec_executed() == p.spec_executed()
    &&& match adv {
        Advance::NextLine => q.spec_key() == p.spec_key() && q.spec_line() == p.spec_line() + 1
            && q.spec_highlighted() == 0,
        Advance::Section(k) => q.spec_key() == k && q.spec_line() == 0 && q.spec_highlighted() == 0,
        Advance::End => q.spec_key() == p.spec_key() && q.spec_line() == p.spec_line()
            && q.spec_highlighted() == hr,
    }
}

/// Selecting the `hr`-th shown response from player `p` in dialogue `d`,
/// on the variables `vars`, gives result `r`; on success it gives player
/// `q`, takes the signalled bookmarks from `b0` to `b1` and the end-scene
/// signals from `e0` to `e1`.
pub open spec fn select_post(
    p: ScenePlayer,
    q: ScenePlayer,
    hr: usize,
    d: Dialogue,
    vars: Map<Seq<char>, String>,
    r: Result<(), SceneError>,
    b0: Seq<BookmarkView>,
    b1: Seq<BookmarkView>,
    e0: Seq<EndSceneEvent>,
    e1: Seq<EndSceneEvent>,
) -> bool {
    match select_error(p.spec_line(), d, vars) {
        Some(e) => r == Err::<(), SceneError>(e),
        None => {
            let adv = select_advance(p.spec_line(), hr, d, vars);
            &&& r == Ok::<(), SceneError>(())
            &&& moved_by(p, q, hr, adv)
            &&& b1 == b0 + select_bookmarks(p.spec_scene(), p.spec_key(), p.spec_line(), hr, d, vars)
            &&& e1 == e0 + end_events(adv)
        },
    }
}

/// The highlighted response after one move down among `len` responses: one
/// further, but never past the last (or 0 when there are none).
pub open spec fn move_down(hr: usize, len: nat) -> usize {
    let last = if len == 0 {
        0
    } else {
        (len - 1) as usize
    };
    if hr + 1 <= last {
        (hr + 1) as usize
    } else {
        last
    }
}

pub open spec fn move_down_times(hr: usize, len: nat, n: nat) -> usize
    decreases n,
{
    if n == 0 {
        hr
    } else {
        move_down(move_down_times(hr, len, (n - 1) as nat), len)
    }
}

/// Moving down `n > len` times among `len` responses stops at the last
/// response (0 when there are none), and no number of moves goes past it.
pub proof fn lemma_move_down_stops_at_last(hr: usize, len: nat, n: nat)
    requires
        len < usize::MAX,
    ensures
        n > 0 ==> move_down_times(hr, len, n) <= if len == 0 {
            0
        } else {
            len - 1
        },
        n > len ==> move_down_times(hr, len, n) == if len == 0 {
            0
        } else {
            len - 1
        },
    decreases n,
{
    if n > 0 {
        lemma_move_down_times_value(hr, len, n);
    }
}

proof fn lemma_move_down_times_value(hr: usize, len: nat, n: nat)
    requires
        n > 0,
        len < usize::MAX,
    ensures
        move_down_times(hr, len, n) == if hr + n <= (if len == 0 {
            0
        } else {
            len - 1
        }) {
            hr + n
        } else {
            if len == 0 {
                0
            } else {
                len - 1
            }
        },
    decreases n,
{
    assert(move_down_times(hr, len, n) == move_down(move_down_times(hr, len, (n - 1) as nat), len));
    if n > 1 {
        lemma_move_down_times_value(hr, len, (n - 1) as nat);
    } else {
        assert(move_down_times(hr, len, 0) == hr);
    }
}

/// A response whose conditions include a test of an unset variable is never
/// among the responses shown (whatever value is tested), neither by value
/// nor by position. When a reserved condition is reached there is no list
/// of shown responses at all: `get_current` reports an error instead.
pub proof fn lemma_unset_variable_hides(
    rs: Seq<Response>,
    vars: Map<Seq<char>, String>,
    j: int,
    k: int,
)
    requires
        rs.len() <= usize::MAX,
        0 <= j < rs.len(),
        0 <= k < rs[j].conditions@.len(),
        rs[j].conditions@[k] matches Condition::VarEquals { variable, value } && !vars.contains_key(
            variable@,
        ),
    ensures
        response_shown(rs[j], vars) != Some(true),
        visible_responses(rs, vars) matches Some(v) ==> !v.contains(rs[j]),
        visible_indices(rs, vars) matches Some(ix) ==> !ix.contains(j as usize),
{
    lemma_scan_all_fails(rs[j].conditions@, vars, k);
    lemma_visible_are_shown(rs, vars, rs[j]);
    lemma_visible_indices(rs, vars);
    if let Some(ix) = visible_indices(rs, vars) {
        assert forall|m: int| 0 <= m < ix.len() implies ix[m] != j as usize by {
            assert(ix[m] < rs.len());
        }
    }
}

proof fn lemma_scan_all_fails(cs: Seq<Condition>, vars: Map<Seq<char>, String>, k: int)
    requires
        0 <= k < cs.len(),
        condition_value(cs[k], vars) == Some(false),
    ensures
        scan_conditions(cs, vars, false, false) != Some(true),
    decreases cs.len(),
{
    if k > 0 {
        let rest = cs.subrange(1, cs.len() as int);
        assert(rest[k - 1] == cs[k]);
        lemma_scan_all_fails(rest, vars, k - 1);
    }
}

/// The responses shown, in order, from `rs`: those whose conditions all
/// hold; none when a reserved condition is reached in any of them.
pub open spec fn visible_responses(rs: Seq<Response>, vars: Map<Seq<char>, String>) -> Option<Seq<Response>> {
    match visible_indices(rs, vars) {
        Some(ix) => Some(ix.map_values(|i: usize| rs[i as int])),
        None => None,
    }
}

proof fn lemma_visible_indices(rs: Seq<Response>, vars: Map<Seq<char>, String>)
    requires
        rs.len() <= usize::MAX,
    ensures
        visible_indices(rs, vars) matches Some(ix) ==> forall|k: int|
            0 <= k < ix.len() ==> #[trigger] ix[k] < rs.len() && response_shown(rs[ix[k] as int], vars)
                == Some(true),
    decreases rs.len(),
{
    if rs.len() > 0 {
        let t = rs.drop_last();
        lemma_visible_indices(t, vars);
        if let Some(ix) = visible_indices(t, vars) {
            if let Some(jx) = visible_indices(rs, vars) {
                assert forall|k: int| 0 <= k < jx.len() implies #[trigger] jx[k] < rs.len() && response_shown(
                    rs[jx[k] as int],
                    vars,
                ) == Some(true) by {
                    if k < ix.len() {
                        assert(jx[k] == ix[k]);
                        assert(t[ix[k] as int] == rs[ix[k] as int]);
                    } else {
                        assert(response_shown(rs.last(), vars) == Some(true));
                        assert(jx == ix.push((rs.len() - 1) as usize));
                    }
                }
            }
        }
    }
}

proof fn lemma_visible_are_shown(rs: Seq<Response>, vars: Map<Seq<char>, String>, x: Response)
    requires
        rs.len() <= usize::MAX,
        response_shown(x, vars) != Some(true),
    ensures
        visible_responses(rs, vars) matches Some(v) ==> !v.contains(x),
{
    lemma_visible_indices(rs, vars);
    if let Some(ix) = visible_indices(rs, vars) {
        let v = ix.map_values(|i: usize| rs[i as int]);
        assert forall|k: int| 0 <= k < v.len() implies v[k] != x by {
            assert(ix[k] < rs.len());
        }
    }
}

/// The state that running bookmarked commands reads and changes.
pub struct CommandState {
    pub executed: Set<BookmarkView>,
    pub variables: Map<Seq<char>, String>,
    pub entries: Map<Seq<char>, SceneSectionId>,
    pub battles: Seq<Seq<char>>,
    pub updates: Seq<(Seq<char>, CharacterUpdate)>,
}

/// Running the commands at bookmark `b`: nothing when `b` already ran, else
/// `b` is recorded and its commands take effect.
pub open spec fn execute_state(scenes: Map<Seq<char>, Scene>, s: CommandState, b: BookmarkView) -> CommandState {
    if s.executed.contains(b) {
        s
    } else {
        let c = commands_at(scenes, b);
        CommandState {
            executed: s.executed.insert(b),
            variables: variables_after(c, s.variables),
            entries: entries_after(c, s.entries),
            battles: s.battles + battles_of(c),
            updates: s.updates + updates_of(c),
        }
    }
}

pub open spec fn command_state(
    p: ScenePlayer,
    m: SceneManager,
    battles: Seq<StartBattleEvent>,
    updates: Seq<UpdateNpcEvent>,
) -> CommandState {
    CommandState {
        executed: p.spec_executed(),
        variables: m.spec_variables(),
        entries: m.spec_entries(),
        battles: battle_ids(battles),
        updates: npc_updates(updates),
    }
}

/// Running the same bookmark twice has the effect of running it once: its
/// commands take effect exactly once.
pub proof fn lemma_execute_once(scenes: Map<Seq<char>, Scene>, s: CommandState, b: BookmarkView)
    ensures
        execute_state(scenes, execute_state(scenes, s, b), b) == execute_state(scenes, s, b),
{
}

/// A player input.
#[derive(Clone, Copy, Debug, Hash, PartialEq, Eq, Structural)]
pub enum ScenePlayerInput {
    MoveUp,
    MoveDown,
    MoveTo(usize),
    Select(usize),
    SelectCurrent,
}

/// What the current position shows: the line, and, at the last line, the
/// responses whose conditions hold.
pub struct UiScenePart<'a> {
    pub line: &'a Line,
    pub responses: Option<Vec<&'a Response>>,
}

/// `r` shows `line` and, when `responses` is given, exactly those responses.
pub open spec fn shows<'a>(
    r: Result<Option<UiScenePart<'a>>, SceneError>,
    line: Line,
    responses: Option<Seq<Response>>,
) -> bool {
    match r {
        Ok(Some(part)) => *part.line == line && match (part.responses, responses) {
            (None, None) => true,
            (Some(rs), Some(v)) => rs@.len() == v.len() && forall|j: int|
                0 <= j < v.len() ==> *#[trigger] rs@[j] == v[j],
            _ => false,
        },
        _ => false,
    }
}

/// Plays one scene: a cursor over its dialogue graph, the highlighted
/// response, and the bookmarks whose commands already ran.
#[derive(Debug)]
pub struct ScenePlayer {
    scene: SceneId,
    current_key: SceneSectionId,
    current_line: usize,
    highlighted_response: usize,
    executed_commands: Table<SceneBookmark, ()>,
}

impl ScenePlayer {
    pub closed spec fn spec_scene(&self) -> Seq<char> {
        self.scene@
    }

    pub closed spec fn spec_key(&self) -> Seq<char> {
        self.current_key@
    }

    pub closed spec fn spec_line(&self) -> usize {
        self.current_line
    }

    pub closed spec fn spec_highlighted(&self) -> usize {
        self.highlighted_response
    }

    pub closed spec fn spec_executed(&self) -> Set<BookmarkView> {
        self.executed_commands@.dom()
    }

    /// A player at the first line of `start_key` (the default section when
    /// none is given) that has run nothing yet.
    pub fn new(scene: SceneId, start_key: Option<SceneSectionId>) -> (r: Self)
        ensures
            r.spec_scene() == scene@,
            r.spec_key() == match start_key {
                Some(k) => k@,
                None => "start"@,
            },
            r.spec_line() == 0,
            r.spec_highlighted() == 0,
            r.spec_executed() == Set::<BookmarkView>::empty(),
    {
        let current_key = match start_key {
            Some(k) => k,
            None => SceneSectionId::default(),
        };
        let r = ScenePlayer {
            scene,
            current_key,
            current_line: 0,
            highlighted_response: 0,
            executed_commands: Table::new(),
        };
        assert(r.spec_executed() =~= Set::<BookmarkView>::empty());
        r
    }

    pub fn get_scene<'a>(&self, scene_manager: &'a SceneManager) -> (r: Result<&'a Scene, SceneError>)
        ensures
            match r {
                Ok(s) => scene_manager.spec_scenes().contains_key(self.spec_scene()) && *s
                    == scene_manager.spec_scenes()[self.spec_scene()],
                Err(e) => e == SceneError::UnknownScene && !scene_manager.spec_scenes().contains_key(
                    self.spec_scene(),
                ),
            },
    {
        match scene_manager.get_scene(&self.scene) {
            Some(s) => Ok(s),
            None => Err(SceneError::UnknownScene),
        }
    }

    /// The dialogue at the cursor, with nothing signalled.
    fn find_dialogue<'a>(&self, scene_manager: &'a SceneManager) -> (r: Result<&'a Dialogue, SceneError>)
        ensures
            match dialogue_at(scene_manager.spec_scenes(), self.spec_scene(), self.spec_key()) {
                Some(d) => r == Ok::<&Dialogue, SceneError>(&d),
                None => r == Err::<&Dialogue, SceneError>(lookup_error(*scene_manager, self.spec_scene())),
            },
    {
        let scene = self.get_scene(scene_manager)?;
        match scene.dialogue.get(&self.current_key) {
            Some(d) => Ok(d),
            None => Err(SceneError::UnknownSection),
        }
    }

    /// Queues the signal for the section's own commands, when it has any.
    fn signal_section(&self, dialogue: &Dialogue, scene_commands_events: &mut Vec<StaticCommandsEvent>)
        ensures
            bookmarks_of(final(scene_commands_events)@) == bookmarks_of(old(scene_commands_events)@)
                + section_bookmarks(self.spec_scene(), self.spec_key(), *dialogue),
    {
        let ghost before = scene_commands_events@;
        if dialogue.commands.is_some() {
            let bookmark = SceneBookmark::new(&self.scene, Some(&self.current_key), None, None);
            scene_commands_events.push(StaticCommandsEvent(bookmark));
        }
        assert(bookmarks_of(scene_commands_events@) =~= bookmarks_of(before) + section_bookmarks(
            self.spec_scene(),
            self.spec_key(),
            *dialogue,
        ));
    }

    /// The dialogue at the cursor. When it has commands, the signal to run
    /// them (once, by its bookmark) is queued.
    pub fn get_dialogue<'a>(
        &self,
        scene_manager: &'a SceneManager,
        scene_commands_events: &mut Vec<StaticCommandsEvent>,
    ) -> (r: Result<&'a Dialogue, SceneError>)
        ensures
            self.dialogue_post(*scene_manager, r, old(scene_commands_events)@, final(scene_commands_events)@),
    {
        let dialogue = self.find_dialogue(scene_manager)?;
        self.signal_section(dialogue, scene_commands_events);
        Ok(dialogue)
    }

    /// Looking up the dialogue at the cursor gives `r` and takes the queued
    /// command signals from `c0` to `c1`.
    pub open spec fn dialogue_post(
        &self,
        m: SceneManager,
        r: Result<&Dialogue, SceneError>,
        c0: Seq<StaticCommandsEvent>,
        c1: Seq<StaticCommandsEvent>,
    ) -> bool {
        match dialogue_at(m.spec_scenes(), self.spec_scene(), self.spec_key()) {
            Some(d) => r == Ok::<&Dialogue, SceneError>(&d) && bookmarks_of(c1) == bookmarks_of(c0)
                + section_bookmarks(self.spec_scene(), self.spec_key(), d),
            None => c1 == c0 && r == Err::<&Dialogue, SceneError>(lookup_error(m, self.spec_scene())),
        }
    }

    /// Back to the first line, with the first response highlighted.
    pub fn reset_line(&mut self)
        ensures
            final(self).spec_scene() == old(self).spec_scene(),
            final(self).spec_key() == old(self).spec_key(),
            final(self).spec_executed() == old(self).spec_executed(),
            final(self).spec_line() == 0,
            final(self).spec_highlighted() == 0,
    {
        self.current_line = 0;
        self.highlighted_response = 0;
    }

    /// On to the next line, with the first response highlighted.
    pub fn advance_line(&mut self)
        requires
            old(self).spec_line() < usize::MAX,
        ensures
            moved_by(*old(self), *final(self), 0, Advance::NextLine),
    {
        self.current_line = self.current_line + 1;
        self.highlighted_response = 0;
    }

    /// To the first line of section `key`.
    pub fn set_key(&mut self, key: SceneSectionId)
        ensures
            moved_by(*old(self), *final(self), 0, Advance::Section(key@)),
    {
        self.current_key = key;
        self.reset_line()
    }

    fn signal(&self, line: Option<usize>, response: Option<usize>, scene_commands_events: &mut Vec<StaticCommandsEvent>)
        ensures
            bookmarks_of(final(scene_commands_events)@) == bookmarks_of(old(scene_commands_events)@).push(
                (self.spec_scene(), Some(self.spec_key()), line, response),
            ),
    {
        let bookmark = SceneBookmark::new(&self.scene, Some(&self.current_key), line, response);
        let ghost before = scene_commands_events@;
        scene_commands_events.push(StaticCommandsEvent(bookmark));
        assert(bookmarks_of(scene_commands_events@) =~= bookmarks_of(before).push(
            (self.spec_scene(), Some(self.spec_key()), line, response),
        ));
    }

    /// Acts on the current position of `dialogue`, as `select_advance` and
    /// `select_bookmarks` describe. An error changes nothing.
    pub fn select(
        &mut self,
        dialogue: &Dialogue,
        scene_manager: &SceneManager,
        end_scene_event: &mut Vec<EndSceneEvent>,
        scene_commands_events: &mut Vec<StaticCommandsEvent>,
    ) -> (r: Result<(), SceneError>)
        ensures
            select_post(
                *old(self),
                *final(self),
                old(self).spec_highlighted(),
                *dialogue,
                scene_manager.spec_variables(),
                r,
                bookmarks_of(old(scene_commands_events)@),
                bookmarks_of(final(scene_commands_events)@),
                old(end_scene_event)@,
                final(end_scene_event)@,
            ),
            r is Err ==> *final(self) == *old(self) && final(scene_commands_events)@ == old(
                scene_commands_events,
            )@ && final(end_scene_event)@ == old(end_scene_event)@,
    {
        let ghost vars = scene_manager.spec_variables();
        let ghost b0 = bookmarks_of(scene_commands_events@);
        let ghost e0 = end_scene_event@;
        if dialogue.lines.len() == 0 {
            end_scene_event.push(EndSceneEvent);
            assert(end_scene_event@ =~= e0 + end_events(Advance::End));
            assert(bookmarks_of(scene_commands_events@) =~= b0 + Seq::<BookmarkView>::empty());
            return Ok(());
        }
        if self.current_line >= dialogue.lines.len() {
            return Err(SceneError::LinePastEnd);
        }
        let hr = self.highlighted_response;
        let last = self.current_line == dialogue.lines.len() - 1;
        let mut chosen: Option<usize> = None;
        if last {
            let shown = match shown_positions(&dialogue.responses, scene_manager) {
                Ok(v) => v,
                Err(e) => {
                    return Err(e);
                },
            };
            proof {
                assert(dialogue.responses@.len() == dialogue.responses.len());
                lemma_visible_indices(dialogue.responses@, vars);
            }
            if hr < shown.len() {
                chosen = Some(shown[hr]);
            }
        }
        assert(chosen == chosen_response(self.current_line, hr, *dialogue, vars));
        let line = &dialogue.lines[self.current_line];
        if line.commands.is_some() {
            self.signal(Some(self.current_line), None, scene_commands_events);
        }
        let ghost b1 = bookmarks_of(scene_commands_events@);
        if !last {
            self.advance_line();
            assert(bookmarks_of(scene_commands_events@) =~= b1 + Seq::<BookmarkView>::empty());
        } else {
            match chosen {
                Some(j) => {
                    let response = &dialogue.responses[j];
                    if response.commands.is_some() {
                        self.signal(None, Some(j), scene_commands_events);
                    } else {
                        assert(bookmarks_of(scene_commands_events@) =~= b1 + Seq::<BookmarkView>::empty());
                    }
                    match &response.link {
                        Some(link) => self.set_key(link.duplicate()),
                        None => end_scene_event.push(EndSceneEvent),
                    }
                },
                None => {
                    assert(bookmarks_of(scene_commands_events@) =~= b1 + Seq::<BookmarkView>::empty());
                    match &dialogue.continue_to {
                        Some(section) => self.set_key(section.duplicate()),
                        None => end_scene_event.push(EndSceneEvent),
                    }
                },
            }
        }
        assert(bookmarks_of(scene_commands_events@) =~= b0 + select_bookmarks(
            old(self).spec_scene(),
            old(self).spec_key(),
            old(self).spec_line(),
            hr,
            *dialogue,
            vars,
        ));
        assert(end_scene_event@ =~= e0 + end_events(select_advance(old(self).spec_line(), hr, *dialogue, vars)));
        Ok(())
    }

    pub fn highlighted_response(&self) -> (r: usize)
        ensures
            r == self.spec_highlighted(),
    {
        self.highlighted_response
    }

    /// The line at the cursor and, at the last line of the section, the
    /// responses whose conditions hold. A section without lines only runs
    /// its commands and shows nothing: the caller then selects to move on.
    /// The section's command signal is queued only when no error is returned.
    pub fn get_current<'a>(
        &'a self,
        scene_manager: &'a SceneManager,
        scene_commands_events: &mut Vec<StaticCommandsEvent>,
    ) -> (r: Result<Option<UiScenePart<'a>>, SceneError>)
        ensures
            r is Err ==> final(scene_commands_events)@ == old(scene_commands_events)@,
            match dialogue_at(scene_manager.spec_scenes(), self.spec_scene(), self.spec_key()) {
                None => r == Err::<Option<UiScenePart>, SceneError>(lookup_error(*scene_manager, self.spec_scene())),
                Some(d) => {
                    &&& r is Ok ==> bookmarks_of(final(scene_commands_events)@) == bookmarks_of(
                        old(scene_commands_events)@,
                    ) + section_bookmarks(self.spec_scene(), self.spec_key(), d)
                    &&& if d.lines.len() == 0 {
                        r == Ok::<Option<UiScenePart>, SceneError>(None)
                    } else if self.spec_line() >= d.lines.len() {
                        r == Err::<Option<UiScenePart>, SceneError>(SceneError::LinePastEnd)
                    } else if self.spec_line() + 1 < d.lines.len() {
                        shows(r, d.lines@[self.spec_line() as int], None)
                    } else {
                        match visible_responses(d.responses@, scene_manager.spec_variables()) {
                            None => r == Err::<Option<UiScenePart>, SceneError>(
                                SceneError::UnsupportedCondition,
                            ),
                            Some(v) => shows(r, d.lines@[self.spec_line() as int], Some(v)),
                        }
                    }
                },
            },
    {
        let dialogue = self.find_dialogue(scene_manager)?;
        if dialogue.lines.len() == 0 {
            self.signal_section(dialogue, scene_commands_events);
            return Ok(None);
        }
        if self.current_line >= dialogue.lines.len() {
            return Err(SceneError::LinePastEnd);
        }
        let line = &dialogue.lines[self.current_line];
        if self.current_line < dialogue.lines.len() - 1 {
            self.signal_section(dialogue, scene_commands_events);
            return Ok(Some(UiScenePart { line, responses: None }));
        }
        let ghost rs = dialogue.responses@;
        let ghost vars = scene_manager.spec_variables();
        let positions = match shown_positions(&dialogue.responses, scene_manager) {
            Ok(v) => v,
            Err(e) => {
                return Err(e);
            },
        };
        proof {
            assert(rs.len() == dialogue.responses.len());
            lemma_visible_indices(rs, vars);
        }
        let mut shown: Vec<&'a Response> = Vec::new();
        let mut k: usize = 0;
        while k < positions.len()
            invariant
                k <= positions@.len(),
                rs == dialogue.responses@,
                visible_indices(rs, vars) == Some(positions@),
                forall|j: int| 0 <= j < positions@.len() ==> #[trigger] positions@[j] < rs.len(),
                shown@.len() == k,
                forall|j: int| 0 <= j < k ==> *#[trigger] shown@[j] == rs[positions@[j] as int],
            decreases positions@.len() - k,
        {
            shown.push(&dialogue.responses[positions[k]]);
            k = k + 1;
        }
        self.signal_section(dialogue, scene_commands_events);
        Ok(Some(UiScenePart { line, responses: Some(shown) }))
    }

    /// Handles one input: moving the highlight among the shown responses
    /// (clamped, never wrapping), setting it, or selecting as `select` does.
    /// The section's command signal is queued with each input that succeeds;
    /// an error changes nothing.
    pub fn input(
        &mut self,
        input: ScenePlayerInput,
        scene_manager: &SceneManager,
        end_scene_event: &mut Vec<EndSceneEvent>,
        scene_commands_events: &mut Vec<StaticCommandsEvent>,
    ) -> (r: Result<(), SceneError>)
        ensures
            r is Err ==> *final(self) == *old(self) && final(scene_commands_events)@ == old(
                scene_commands_events,
            )@ && final(end_scene_event)@ == old(end_scene_event)@,
            match dialogue_at(scene_manager.spec_scenes(), old(self).spec_scene(), old(self).spec_key()) {
                None => r == Err::<(), SceneError>(lookup_error(*scene_manager, old(self).spec_scene())),
                Some(d) => {
                    let vars = scene_manager.spec_variables();
                    let b0 = bookmarks_of(old(scene_commands_events)@) + section_bookmarks(
                        old(self).spec_scene(),
                        old(self).spec_key(),
                        d,
                    );
                    let b1 = bookmarks_of(final(scene_commands_events)@);
                    match input {
                        ScenePlayerInput::MoveUp => r == Ok::<(), SceneError>(()) && b1 == b0
                            && final(end_scene_event)@ == old(end_scene_event)@ && moved_by(
                            *old(self),
                            *final(self),
                            if old(self).spec_highlighted() == 0 {
                                0
                            } else {
                                (old(self).spec_highlighted() - 1) as usize
                            },
                            Advance::End,
                        ),
                        ScenePlayerInput::MoveDown => match visible_indices(d.responses@, vars) {
                            None => r == Err::<(), SceneError>(SceneError::UnsupportedCondition),
                            Some(ix) => r == Ok::<(), SceneError>(()) && b1 == b0
                                && final(end_scene_event)@ == old(end_scene_event)@ && moved_by(
                                *old(self),
                                *final(self),
                                move_down(old(self).spec_highlighted(), ix.len()),
                                Advance::End,
                            ),
                        },
                        ScenePlayerInput::MoveTo(i) => r == Ok::<(), SceneError>(()) && b1 == b0
                            && final(end_scene_event)@ == old(end_scene_event)@ && moved_by(
                            *old(self),
                            *final(self),
                            i,
                            Advance::End,
                        ),
                        ScenePlayerInput::Select(i) => select_post(
                            *old(self),
                            *final(self),
                            i,
                            d,
                            vars,
                            r,
                            b0,
                            b1,
                            old(end_scene_event)@,
                            final(end_scene_event)@,
                        ),
                        ScenePlayerInput::SelectCurrent => select_post(
                            *old(self),
                            *final(self),
                            old(self).spec_highlighted(),
                            d,
                            vars,
                            r,
                            b0,
                            b1,
                            old(end_scene_event)@,
                            final(end_scene_event)@,
                        ),
                    }
                },
            },
    {
        let dialogue = self.find_dialogue(scene_manager)?;
        match input {
            ScenePlayerInput::MoveUp => {
                self.highlighted_response = if self.highlighted_response == 0 {
                    0
                } else {
                    self.highlighted_response - 1
                };
                self.signal_section(dialogue, scene_commands_events);
                Ok(())
            },
            ScenePlayerInput::MoveDown => {
                let shown = match shown_positions(&dialogue.responses, scene_manager) {
                    Ok(v) => v,
                    Err(e) => {
                        return Err(e);
                    },
                };
                let n = shown.len();
                let last = if n == 0 {
                    0
                } else {
                    n - 1
                };
                let next = if self.highlighted_response < last {
                    self.highlighted_response + 1
                } else {
                    last
                };
                self.highlighted_response = next;
                self.signal_section(dialogue, scene_commands_events);
                Ok(())
            },
            ScenePlayerInput::MoveTo(i) => {
                self.highlighted_response = i;
                self.signal_section(dialogue, scene_commands_events);
                Ok(())
            },
            ScenePlayerInput::Select(i) => {
                let saved = self.highlighted_response;
                self.highlighted_response = i;
                let r = self.select_signalled(dialogue, scene_manager, end_scene_event, scene_commands_events);
                if r.is_err() {
                    self.highlighted_response = saved;
                }
                r
            },
            ScenePlayerInput::SelectCurrent => self.select_signalled(
                dialogue,
                scene_manager,
                end_scene_event,
                scene_commands_events,
            ),
        }
    }

    /// Selects, with the section's command signal queued ahead of the ones
    /// selecting queues, and nothing queued on an error.
    fn select_signalled(
        &mut self,
        dialogue: &Dialogue,
        scene_manager: &SceneManager,
        end_scene_event: &mut Vec<EndSceneEvent>,
        scene_commands_events: &mut Vec<StaticCommandsEvent>,
    ) -> (r: Result<(), SceneError>)
        ensures
            select_post(
                *old(self),
                *final(self),
                old(self).spec_highlighted(),
                *dialogue,
                scene_manager.spec_variables(),
                r,
                bookmarks_of(old(scene_commands_events)@) + section_bookmarks(
                    old(self).spec_scene(),
                    old(self).spec_key(),
                    *dialogue,
                ),
                bookmarks_of(final(scene_commands_events)@),
                old(end_scene_event)@,
                final(end_scene_event)@,
            ),
            r is Err ==> *final(self) == *old(self) && final(scene_commands_events)@ == old(
                scene_commands_events,
            )@ && final(end_scene_event)@ == old(end_scene_event)@,
    {
        let mut pending: Vec<StaticCommandsEvent> = Vec::new();
        self.signal_section(dialogue, &mut pending);
        let ghost p0 = pending@;
        let r = self.select(dialogue, scene_manager, end_scene_event, &mut pending);
        if r.is_ok() {
            let ghost before = scene_commands_events@;
            let ghost p1 = pending@;
            scene_commands_events.append(&mut pending);
            proof {
                assert(bookmarks_of(before + p1) =~= bookmarks_of(before) + bookmarks_of(p1));
                if select_error(old(self).spec_line(), *dialogue, scene_manager.spec_variables()) is None {
                    let sel = select_bookmarks(
                        old(self).spec_scene(),
                        old(self).spec_key(),
                        old(self).spec_line(),
                        old(self).spec_highlighted(),
                        *dialogue,
                        scene_manager.spec_variables(),
                    );
                    let sec = section_bookmarks(old(self).spec_scene(), old(self).spec_key(), *dialogue);
                    assert(bookmarks_of(p0) =~= sec);
                    assert(bookmarks_of(p1) == bookmarks_of(p0) + sel);
                    assert(bookmarks_of(before) + (sec + sel) =~= bookmarks_of(before) + sec + sel);
                }
                assert(bookmarks_of(p0) =~= Seq::<BookmarkView>::empty() + section_bookmarks(
                    old(self).spec_scene(),
                    old(self).spec_key(),
                    *dialogue,
                ));
            }
        }
        r
    }

    /// Runs the commands at `bookmark` unless this player already ran them:
    /// each bookmarked site takes effect at most once per player.
    pub fn execute(
        &mut self,
        bookmark: SceneBookmark,
        scene_manager: &mut SceneManager,
        start_battle_event: &mut Vec<StartBattleEvent>,
        update_npc_event: &mut Vec<UpdateNpcEvent>,
    )
        ensures
            command_state(*final(self), *final(scene_manager), final(start_battle_event)@, final(update_npc_event)@)
                == execute_state(
                old(scene_manager).spec_scenes(),
                command_state(*old(self), *old(scene_manager), old(start_battle_event)@, old(update_npc_event)@),
                bookmark@,
            ),
            final(scene_manager).spec_scenes() == old(scene_manager).spec_scenes(),
            final(self).spec_scene() == old(self).spec_scene(),
            final(self).spec_key() == old(self).spec_key(),
            final(self).spec_line() == old(self).spec_line(),
            final(self).spec_highlighted() == old(self).spec_highlighted(),
    {
        if !self.executed_commands.contains_key(&bookmark) {
            scene_manager.run_bookmarked(&bookmark, start_battle_event, update_npc_event);
            self.executed_commands.insert(bookmark, ());
            assert(self.spec_executed() =~= old(self).spec_executed().insert(bookmark@));
        }
    }
}

proof fn lemma_visible_none_prefix(rs: Seq<Response>, vars: Map<Seq<char>, String>, n: int)
    requires
        0 <= n <= rs.len(),
        visible_indices(rs.take(n), vars) is None,
    ensures
        visible_indices(rs, vars) is None,
    decreases rs.len(),
{
    if n == rs.len() {
        assert(rs.take(n) == rs);
    } else {
        assert(rs.drop_last().take(n) == rs.take(n));
        lemma_visible_none_prefix(rs.drop_last(), vars, n);
    }
}

/// The positions of the responses in `responses` that are shown.
fn shown_positions(responses: &Vec<Response>, scene_manager: &SceneManager) -> (r: Result<Vec<usize>, SceneError>)
    ensures
        match visible_indices(responses@, scene_manager.spec_variables()) {
            Some(ix) => r matches Ok(v) && v@ == ix,
            None => r == Err::<Vec<usize>, SceneError>(SceneError::UnsupportedCondition),
        },
{
    let ghost vars = scene_manager.spec_variables();
    let ghost rs = responses@;
    let mut out: Vec<usize> = Vec::new();
    let mut i: usize = 0;
    proof {
        assert(rs.take(0) =~= Seq::<Response>::empty());
    }
    while i < responses.len()
        invariant
            i <= rs.len(),
            rs == responses@,
            vars == scene_manager.spec_variables(),
            visible_indices(rs.take(i as int), vars) == Some(out@),
        decreases rs.len() - i,
    {
        proof {
            assert(rs.take(i + 1).drop_last() == rs.take(i as int));
            assert(rs.take(i + 1).last() == rs[i as int]);
        }
        match responses[i].evaluate_conditions(scene_manager) {
            Ok(true) => {
                out.push(i);
            },
            Ok(false) => {},
            Err(e) => {
                proof {
                    lemma_visible_none_prefix(rs, vars, i + 1);
                }
                return Err(e);
            },
        }
        i = i + 1;
    }
    proof {
        assert(rs.take(rs.len() as int) == rs);
    }
    Ok(out)
}

fn find_commands<'a>(scenes: &'a Table<SceneId, Scene>, b: &SceneBookmark) -> (r: Option<&'a StaticCommands>)
    ensures
        match r {
            Some(c) => commands_at(scenes@, b@) == Some(*c),
            None => commands_at(scenes@, b@) is None,
        },
{
    let key = match &b.section {
        Some(k) => k,
        None => {
            return None;
        },
    };
    let scene = match scenes.get(&b.scene) {
        Some(s) => s,
        None => {
            return None;
        },
    };
    let d = match scene.dialogue.get(key) {
        Some(d) => d,
        None => {
            return None;
        },
    };
    match (b.line, b.response) {
        (Some(l), None) => if l < d.lines.len() {
            d.lines[l].commands.as_ref()
        } else {
            None
        },
        (None, Some(r)) => if r < d.responses.len() {
            d.responses[r].commands.as_ref()
        } else {
            None
        },
        (None, None) => d.commands.as_ref(),
        _ => None,
    }
}

impl SceneManager {
    fn run_bookmarked(
        &mut self,
        b: &SceneBookmark,
        start_battle_event: &mut Vec<StartBattleEvent>,
        update_npc_event: &mut Vec<UpdateNpcEvent>,
    )
        ensures
            final(self).spec_scenes() == old(self).spec_scenes(),
            final(self).spec_variables() == variables_after(commands_at(old(self).spec_scenes(), b@), old(self).spec_variables()),
            final(self).spec_entries() == entries_after(commands_at(old(self).spec_scenes(), b@), old(self).spec_entries()),
            battle_ids(final(start_battle_event)@) == battle_ids(old(start_battle_event)@) + battles_of(
                commands_at(old(self).spec_scenes(), b@),
            ),
            npc_updates(final(update_npc_event)@) == npc_updates(old(update_npc_event)@) + updates_of(
                commands_at(old(self).spec_scenes(), b@),
            ),
    {
        match find_commands(&self.scenes, b) {
            Some(c) => c.apply(&mut self.variables, &mut self.entries, start_battle_event, update_npc_event),
            None => {
                assert(battle_ids(start_battle_event@) =~= battle_ids(start_battle_event@) + battles_of(None));
                assert(npc_updates(update_npc_event@) =~= npc_updates(update_npc_event@) + updates_of(None));
            },
        }
    }

    /// Starts playing `scene_id`: the characters the scene defines are
    /// signalled for spawning, and the player starts at the scene's entry
    /// point, or its default section without one. None when the scene is
    /// not loaded.
    pub fn play_scene(&self, scene_id: SceneId, spawn_npc_event: &mut Vec<SpawnNpcEvent>) -> (r: Option<ScenePlayer>)
        ensures
            r.is_some() == self.spec_scenes().contains_key(scene_id@),
            r is None ==> final(spawn_npc_event)@ == old(spawn_npc_event)@,
            r matches Some(p) ==> {
                &&& spawned(final(spawn_npc_event)@) == spawned(old(spawn_npc_event)@) + spawn_events(
                    self.spec_scenes()[scene_id@].definitions.characters,
                )
                &&& p.spec_scene() == scene_id@
                &&& p.spec_key() == if self.spec_entries().contains_key(scene_id@) {
                    self.spec_entries()[scene_id@]@
                } else {
                    "start"@
                }
                &&& p.spec_line() == 0
                &&& p.spec_highlighted() == 0
                &&& p.spec_executed() == Set::<BookmarkView>::empty()
            },
    {
        match self.scenes.get(&scene_id) {
            Some(scene) => {
                scene.definitions.create(spawn_npc_event);
                let entry = match self.entries.get(&scene_id) {
                    Some(k) => Some(k.duplicate()),
                    None => None,
                };
                Some(ScenePlayer::new(scene_id, entry))
            },
            None => None,
        }
    }
}

} // verus!
