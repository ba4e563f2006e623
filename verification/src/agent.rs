//! The prompts of an agent: its system prompt, its memory, and the task that it is on.
use crate::enrich;
use crate::json;
use crate::logging;
use crate::logging::{Level, Line, LineView};
use crate::text;
use crate::text::{byte_len_text, decimal_text, excerpt_of, join, same_text};
use vstd::prelude::*;

verus! {

/// Who wrote a message.
#[derive(Clone, Copy, PartialEq, Eq, Structural, Debug)]
pub enum Role {
    User,
    Assistant,
}

/// A part of a message.
#[derive(Debug)]
pub enum ContentBlock {
    Text(String),
    /// A part that is not text, such as a call of a tool or its result.
    Other,
}

/// A message of a conversation.
#[derive(Debug)]
pub struct Message {
    pub role: Role,
    pub content: Vec<ContentBlock>,
}

/// A skill that an agent can use.
#[derive(Debug)]
pub struct Skill {
    pub name: String,
    pub description: String,
    pub prompt: String,
}

/// What the system prompt says of a skill.
#[derive(Debug)]
pub struct SkillInfo {
    pub name: String,
    pub description: String,
}

/// A system prompt in two parts: one that can be cached, and one that changes by the turn.
#[derive(Debug)]
pub struct SplitSystemPrompt {
    pub static_part: String,
    pub dynamic_part: String,
}

/// A part of the context by its label, with its size.
#[derive(Debug)]
pub struct ContextPart {
    pub label: String,
    pub chars: usize,
}

/// The session of an agent.
#[derive(Debug)]
pub struct Session {
    pub id: String,
    pub working_dir: Option<String>,
    pub is_canary: bool,
    pub messages: Vec<Message>,
}

/// What the prompts of an agent depend on.
#[derive(Debug)]
pub struct Agent {
    pub session: Session,
    pub memory_enabled: bool,
    pub system_prompt_override: Option<String>,
    pub active_skill: Option<String>,
    pub skills: Vec<Skill>,
    pub current_turn_system_reminder: Option<String>,
}

/// The parts of a system prompt that a [`SplitSystemPrompt`] stands for.
#[verifier::ext_equal]
pub struct SplitView {
    pub static_part: Seq<char>,
    pub dynamic_part: Seq<char>,
}

impl View for SplitSystemPrompt {
    type V = SplitView;

    open spec fn view(&self) -> SplitView {
        SplitView { static_part: self.static_part@, dynamic_part: self.dynamic_part@ }
    }
}

/// The first text in a message.
pub open spec fn first_text(content: Seq<ContentBlock>) -> Option<Seq<char>>
    decreases content.len(),
{
    if content.len() == 0 {
        None
    } else {
        match content[0] {
            ContentBlock::Text(text) => Some(text@),
            ContentBlock::Other => first_text(content.drop_first()),
        }
    }
}

/// The first texts of the messages of the user, in order, of those that hold text.
pub open spec fn user_texts(messages: Seq<Message>) -> Seq<Seq<char>>
    decreases messages.len(),
{
    if messages.len() == 0 {
        Seq::empty()
    } else {
        let before = user_texts(messages.drop_last());
        if messages.last().role == Role::User {
            match first_text(messages.last().content@) {
                Some(text) => before.push(text),
                None => before,
            }
        } else {
            before
        }
    }
}

/// The task that some texts of the user come to: the first text, and the last one with it
/// where the two differ by more than white space around them; none where the first is blank.
pub open spec fn conversation_context(texts: Seq<Seq<char>>) -> Option<Seq<char>> {
    if texts.len() == 0 || text::is_blank(texts.first()) {
        None
    } else if text::trimmed(texts.last()) == text::trimmed(texts.first()) {
        Some(texts.first())
    } else {
        Some("Original request: "@ + texts.first() + "\n\nFollow-up: "@ + texts.last())
    }
}

/// The system prompt with a reminder at the end of its dynamic part; the same where the
/// reminder is missing or blank.
pub open spec fn with_reminder(split: SplitView, reminder: Option<Seq<char>>) -> SplitView {
    match reminder {
        Some(reminder) => if text::is_blank(reminder) {
            split
        } else {
            let before = if split.dynamic_part.len() > 0 {
                split.dynamic_part + "\n\n"@
            } else {
                Seq::empty()
            };
            SplitView {
                static_part: split.static_part,
                dynamic_part: before + "# System Reminder\n\n"@ + text::trimmed(reminder),
            }
        },
        None => split,
    }
}

/// The prompt of the first skill with a name.
pub open spec fn skill_prompt(skills: Seq<Skill>, name: Seq<char>) -> Option<Seq<char>>
    decreases skills.len(),
{
    if skills.len() == 0 {
        None
    } else if skills[0].name@ == name {
        Some(skills[0].prompt@)
    } else {
        skill_prompt(skills.drop_first(), name)
    }
}

/// What a system prompt is assembled from.
#[derive(Debug)]
pub struct PromptInputs {
    pub skill_prompt: Option<String>,
    pub available_skills: Vec<SkillInfo>,
    pub is_canary: bool,
    pub memory_prompt: Option<String>,
    pub working_dir: Option<String>,
}

/// Where a system prompt comes from.
#[derive(Debug)]
pub enum PromptPlan {
    /// It is given, with an empty context.
    Given(SplitSystemPrompt),
    /// It is to be assembled, and the reminder of the turn appended.
    Assemble(PromptInputs),
}

/// What an agent does about its memory in a turn.
#[derive(PartialEq, Eq, Debug)]
pub enum MemoryPlan {
    /// Nothing; no memory is used.
    Nothing,
    /// The memory prepared for the session is taken and used, if `take_pending`; else none is
    /// used. The memory is then told of the messages, with the session and its working
    /// directory.
    Tell { session_id: String, take_pending: bool, working_dir: Option<String> },
}

/// The task that a conversation is on, and what is logged of it.
#[derive(Debug)]
pub struct TaskFound {
    pub task: Option<String>,
    pub lines: Vec<Line>,
}

/// How many bytes of a task are logged when it is found.
pub const FOUND_EXCERPT: usize = 80;

/// What is logged of the task that a conversation is on: its size in bytes and its start, and
/// that nothing is done where there is none.
pub open spec fn task_lines(found: Option<Seq<char>>) -> Seq<LineView> {
    let task = match found {
        Some(task) => task,
        None => Seq::empty(),
    };
    let start = seq![
        logging::info("Auto-enrich: starting auto_enrich_task()"@),
        logging::info(
            "Auto-enrich: extracted user task ("@ + text::decimal(text::byte_len(task))
                + " chars): "@ + text::excerpt(task, FOUND_EXCERPT as nat),
        ),
    ];
    if found is None {
        start.push(logging::info("Auto-enrich: user task is empty, skipping"@))
    } else {
        start
    }
}

/// The size of a part of the context, as it is logged.
pub open spec fn part_text(part: ContextPart) -> Seq<char> {
    part.label@ + "="@ + text::decimal(part.chars as nat) + "B"@
}

/// What is logged of the size of a prompt.
pub open spec fn accounting_text(
    system_tokens: nat,
    tool_tokens: nat,
    parts: Option<Seq<ContextPart>>,
) -> Seq<char> {
    let total = text::decimal(system_tokens + tool_tokens);
    let system = text::decimal(system_tokens);
    let tools = text::decimal(tool_tokens);
    match parts {
        Some(parts) => "Prompt prefix: total="@ + total + " tok (sys="@ + system + " tools="@
            + tools + ") | ["@ + text::joined(
            Seq::new(parts.len(), |i: int| part_text(parts[i])),
            ", "@,
        ) + "]"@,
        None => "Prompt prefix estimate: total="@ + total + " tokens (system="@ + system
            + " tools="@ + tools + ")"@,
    }
}

fn format_part(part: &ContextPart) -> (output: String)
    ensures
        output@ == part_text(*part),
{
    let mut output = part.label.clone();
    output.append("=");
    output.append(decimal_text(part.chars as u64).as_str());
    output.append("B");
    output
}

fn find_text(content: &Vec<ContentBlock>) -> (found: Option<&str>)
    ensures
        json::opt_text(found) == first_text(content@),
{
    let mut i: usize = 0;
    assert(content@.skip(0) == content@);
    while i < content.len()
        invariant
            i <= content@.len(),
            first_text(content@) == first_text(content@.skip(i as int)),
        decreases content@.len() - i,
    {
        assert(content@.skip(i as int).drop_first() == content@.skip(i + 1));
        if let ContentBlock::Text(text) = &content[i] {
            return Some(text.as_str());
        }
        i += 1;
    }
    None
}

fn copy_text(text: &Option<String>) -> (copy: Option<String>)
    ensures
        enrich::owned_text(copy) == enrich::owned_text(*text),
{
    match text {
        Some(text) => Some(text.clone()),
        None => None,
    }
}

impl Agent {
    /// What is logged of the size of a prompt: its tokens and, where the context is known,
    /// its parts.
    pub fn log_prompt_prefix_accounting(
        &self,
        system_tokens: usize,
        tool_tokens: usize,
        parts: Option<&Vec<ContextPart>>,
    ) -> (line: String)
        requires
            system_tokens + tool_tokens <= usize::MAX,
        ensures
            line@ == accounting_text(
                system_tokens as nat,
                tool_tokens as nat,
                match parts {
                    Some(parts) => Some(parts@),
                    None => None,
                },
            ),
    {
        let total = decimal_text((system_tokens + tool_tokens) as u64);
        let system = decimal_text(system_tokens as u64);
        let tools = decimal_text(tool_tokens as u64);
        match parts {
            Some(parts) => {
                let mut texts: Vec<String> = Vec::new();
                let mut i: usize = 0;
                while i < parts.len()
                    invariant
                        i <= parts@.len(),
                        texts@.len() == i,
                        forall|k: int|
                            0 <= k < i ==> (#[trigger] texts@[k])@ == part_text(parts@[k]),
                    decreases parts@.len() - i,
                {
                    texts.push(format_part(&parts[i]));
                    i += 1;
                }
                assert(text::texts(texts@) == Seq::new(
                    parts@.len(),
                    |i: int| part_text(parts@[i]),
                ));
                let mut line = "Prompt prefix: total=".to_owned();
                line.append(total.as_str());
                line.append(" tok (sys=");
                line.append(system.as_str());
                line.append(" tools=");
                line.append(tools.as_str());
                line.append(") | [");
                line.append(join(&texts, ", ").as_str());
                line.append("]");
                line
            },
            None => {
                let mut line = "Prompt prefix estimate: total=".to_owned();
                line.append(total.as_str());
                line.append(" tokens (system=");
                line.append(system.as_str());
                line.append(" tools=");
                line.append(tools.as_str());
                line.append(")");
                line
            },
        }
    }

    /// What to do about the memory in a turn: nothing where it is off; else the memory that
    /// is prepared is used if the conversation ends with a fresh turn of the user, and the
    /// memory is told of the messages in any case.
    pub fn build_memory_prompt_nonblocking_shared(&self, fresh_user_turn: bool) -> (plan:
        MemoryPlan)
        ensures
            match plan {
                MemoryPlan::Nothing => !self.memory_enabled,
                MemoryPlan::Tell { session_id, take_pending, working_dir } => {
                    &&& self.memory_enabled
                    &&& session_id@ == self.session.id@
                    &&& take_pending == fresh_user_turn
                    &&& enrich::owned_text(working_dir) == enrich::owned_text(
                        self.session.working_dir,
                    )
                },
            },
    {
        if !self.memory_enabled {
            return MemoryPlan::Nothing;
        }
        MemoryPlan::Tell {
            session_id: self.session.id.clone(),
            take_pending: fresh_user_turn,
            working_dir: copy_text(&self.session.working_dir),
        }
    }

    /// Appends the reminder of the turn to a system prompt.
    pub fn append_current_turn_system_reminder(&self, split: &mut SplitSystemPrompt)
        ensures
            final(split)@ == with_reminder(
                old(split)@,
                enrich::owned_text(self.current_turn_system_reminder),
            ),
    {
        let reminder = match &self.current_turn_system_reminder {
            Some(reminder) => reminder.as_str().trim(),
            None => return,
        };
        proof {
            text::lemma_blank_trims_to_nothing(self.current_turn_system_reminder->0@);
        }
        if reminder.is_empty() {
            return;
        }
        if !split.dynamic_part.as_str().is_empty() {
            split.dynamic_part.append("\n\n");
        }
        split.dynamic_part.append("# System Reminder\n\n");
        split.dynamic_part.append(reminder);
    }

    /// The prompt of the skill that is active, where there is one and it is known.
    pub open spec fn active_skill_prompt(self) -> Option<Seq<char>> {
        match self.active_skill {
            Some(name) => skill_prompt(self.skills@, name@),
            None => None,
        }
    }

    fn find_skill_prompt(&self) -> (prompt: Option<String>)
        ensures
            enrich::owned_text(prompt) == self.active_skill_prompt(),
    {
        let name = match &self.active_skill {
            Some(name) => name,
            None => return None,
        };
        let mut i: usize = 0;
        assert(self.skills@.skip(0) == self.skills@);
        while i < self.skills.len()
            invariant
                i <= self.skills@.len(),
                skill_prompt(self.skills@, name@) == skill_prompt(self.skills@.skip(i as int), name@),
                self.active_skill == Some(*name),
            decreases self.skills@.len() - i,
        {
            assert(self.skills@.skip(i as int).drop_first() == self.skills@.skip(i + 1));
            if same_text(self.skills[i].name.as_str(), name.as_str()) {
                return Some(self.skills[i].prompt.clone());
            }
            i += 1;
        }
        None
    }

    fn list_skills(&self) -> (infos: Vec<SkillInfo>)
        ensures
            infos@.len() == self.skills@.len(),
            forall|i: int|
                0 <= i < infos@.len() ==> (#[trigger] infos@[i]).name@ == self.skills@[i].name@
                    && infos@[i].description@ == self.skills@[i].description@,
    {
        let mut infos: Vec<SkillInfo> = Vec::new();
        let mut i: usize = 0;
        while i < self.skills.len()
            invariant
                i <= self.skills@.len(),
                infos@.len() == i,
                forall|k: int|
                    0 <= k < i ==> (#[trigger] infos@[k]).name@ == self.skills@[k].name@
                        && infos@[k].description@ == self.skills@[k].description@,
            decreases self.skills@.len() - i,
        {
            infos.push(
                SkillInfo {
                    name: self.skills[i].name.clone(),
                    description: self.skills[i].description.clone(),
                },
            );
            i += 1;
        }
        infos
    }

    /// Where the system prompt comes from: the override, where there is one, as its static
    /// part; else it is to be assembled from the active skill, all skills, the session and
    /// the memory.
    pub fn build_system_prompt_split(&self, memory_prompt: Option<&str>) -> (plan: PromptPlan)
        ensures
            match self.system_prompt_override {
                Some(given) => plan matches PromptPlan::Given(split) && split@ == (SplitView {
                    static_part: given@,
                    dynamic_part: Seq::empty(),
                }),
                None => plan matches PromptPlan::Assemble(inputs) && {
                    &&& enrich::owned_text(inputs.skill_prompt) == self.active_skill_prompt()
                    &&& inputs.available_skills@.len() == self.skills@.len()
                    &&& forall|i: int|
                        0 <= i < self.skills@.len() ==> (#[trigger] inputs.available_skills@[i]).name@
                            == self.skills@[i].name@ && inputs.available_skills@[i].description@
                            == self.skills@[i].description@
                    &&& inputs.is_canary == self.session.is_canary
                    &&& enrich::owned_text(inputs.memory_prompt) == json::opt_text(memory_prompt)
                    &&& enrich::owned_text(inputs.working_dir) == enrich::owned_text(
                        self.session.working_dir,
                    )
                },
            },
    {
        if let Some(given) = &self.system_prompt_override {
            return PromptPlan::Given(
                SplitSystemPrompt { static_part: given.clone(), dynamic_part: String::new() },
            );
        }
        PromptPlan::Assemble(
            PromptInputs {
                skill_prompt: self.find_skill_prompt(),
                available_skills: self.list_skills(),
                is_canary: self.session.is_canary,
                memory_prompt: match memory_prompt {
                    Some(prompt) => Some(prompt.to_owned()),
                    None => None,
                },
                working_dir: copy_text(&self.session.working_dir),
            },
        )
    }

    /// The task that the conversation is on: what the user asked first, with what the user
    /// said last where that is something else.
    pub fn extract_conversation_context(&self) -> (context: Option<String>)
        ensures
            enrich::owned_text(context) == conversation_context(
                user_texts(self.session.messages@),
            ),
    {
        let messages = &self.session.messages;
        let mut texts: Vec<String> = Vec::new();
        let mut i: usize = 0;
        assert(text::texts(texts@) == user_texts(messages@.take(0)));
        while i < messages.len()
            invariant
                i <= messages@.len(),
                text::texts(texts@) == user_texts(messages@.take(i as int)),
            decreases messages@.len() - i,
        {
            let ghost before = texts@;
            assert(messages@.take(i + 1).drop_last() == messages@.take(i as int));
            if messages[i].role == Role::User {
                if let Some(text) = find_text(&messages[i].content) {
                    texts.push(text.to_owned());
                    assert(text::texts(texts@) == text::texts(before).push(text@));
                }
            }
            i += 1;
        }
        assert(messages@.take(messages@.len() as int) == messages@);
        let ghost found = user_texts(messages@);
        assert(found.len() == texts@.len());
        if texts.len() == 0 {
            return None;
        }
        let first = texts[0].as_str();
        let latest = texts[texts.len() - 1].as_str();
        assert(first@ == found.first() && latest@ == found.last());
        proof {
            text::lemma_blank_trims_to_nothing(first@);
        }
        if first.trim().is_empty() {
            return None;
        }
        if texts.len() > 1 && !same_text(latest.trim(), first.trim()) {
            let mut context = "Original request: ".to_owned();
            context.append(first);
            context.append("\n\nFollow-up: ");
            context.append(latest);
            Some(context)
        } else {
            Some(first.to_owned())
        }
    }

    /// The task to ask Mimir for context on, with what is to be logged of it; none where the
    /// conversation gives none.
    pub fn enrichment_task(&self) -> (found: TaskFound)
        ensures
            enrich::owned_text(found.task) == conversation_context(
                user_texts(self.session.messages@),
            ),
            found.task matches Some(task) ==> task@.len() > 0,
            logging::line_views(found.lines@) == task_lines(
                conversation_context(user_texts(self.session.messages@)),
            ),
    {
        let found = self.extract_conversation_context();
        proof {
            law_context_is_not_blank(user_texts(self.session.messages@));
        }
        let task = match &found {
            Some(task) => task.clone(),
            None => String::new(),
        };
        let mut output = "Auto-enrich: extracted user task (".to_owned();
        output.append(byte_len_text(task.as_str()).as_str());
        output.append(" chars): ");
        output.append(excerpt_of(task.as_str(), FOUND_EXCERPT));
        let mut lines = vec![
            Line {
                level: Level::Info,
                text: "Auto-enrich: starting auto_enrich_task()".to_owned(),
            },
            Line { level: Level::Info, text: output },
        ];
        if found.is_none() {
            lines.push(
                Line {
                    level: Level::Info,
                    text: "Auto-enrich: user task is empty, skipping".to_owned(),
                },
            );
        }
        assert(logging::line_views(lines@) == task_lines(enrich::owned_text(found)));
        TaskFound { task: found, lines }
    }
}

/// The task that a conversation is on is not blank.
pub proof fn law_context_is_not_blank(texts: Seq<Seq<char>>)
    ensures
        conversation_context(texts) matches Some(task) ==> !text::is_blank(task) && task.len() > 0,
{
    if let Some(task) = conversation_context(texts) {
        if task != texts.first() {
            reveal_strlit("Original request: ");
            assert(task[0] == "Original request: "@[0]);
        }
    }
}

/// Only the first and the last text of the user count.
pub proof fn law_first_and_last_count(texts: Seq<Seq<char>>, others: Seq<Seq<char>>)
    requires
        texts.len() > 0,
        others.len() > 0,
        texts.first() == others.first(),
        texts.last() == others.last(),
    ensures
        conversation_context(texts) == conversation_context(others),
{
}

/// To ask again what was asked first gives the first text alone.
pub proof fn law_asking_again(texts: Seq<Seq<char>>, again: Seq<char>)
    requires
        texts.len() > 0,
        !text::is_blank(texts.first()),
        text::trimmed(again) == text::trimmed(texts.first()),
    ensures
        conversation_context(texts.push(again)) == Some(texts.first()),
{
}

/// Messages that are not of the user do not count, nor do those without text.
pub proof fn law_only_user_texts_count(messages: Seq<Message>, message: Message)
    requires
        message.role != Role::User || first_text(message.content@) is None,
    ensures
        user_texts(messages.push(message)) == user_texts(messages),
{
    assert(messages.push(message).drop_last() == messages);
}

/// A reminder leaves the static part as it is, and what the dynamic part held stays at its
/// start; a blank reminder changes nothing.
pub proof fn law_reminder_only_appends(split: SplitView, reminder: Option<Seq<char>>)
    ensures
        with_reminder(split, reminder).static_part == split.static_part,
        split.dynamic_part.is_prefix_of(with_reminder(split, reminder).dynamic_part),
        reminder matches Some(given) ==> (!text::is_blank(given) ==> text::trimmed(
            given,
        ).is_suffix_of(with_reminder(split, reminder).dynamic_part)),
        reminder is None || text::is_blank(reminder->0) ==> with_reminder(split, reminder) == split,
{
    let after = with_reminder(split, reminder).dynamic_part;
    let before = split.dynamic_part;
    assert(before == after.subrange(0, before.len() as int));
    if let Some(given) = reminder {
        if !text::is_blank(given) {
            let tail = text::trimmed(given);
            assert(tail == after.subrange(after.len() - tail.len(), after.len() as int));
        }
    }
}

/// The text of a message is the first of its parts that is text; a message has none where no
/// part is.
pub proof fn law_first_text(content: Seq<ContentBlock>, at: int)
    ensures
        0 <= at < content.len() && (forall|i: int| 0 <= i < at ==> (#[trigger] content[i]) is Other)
            ==> (content[at] matches ContentBlock::Text(text) ==> first_text(content) == Some(
            text@,
        )),
        first_text(content) is None <==> forall|i: int|
            0 <= i < content.len() ==> (#[trigger] content[i]) is Other,
    decreases content.len(),
{
    if content.len() > 0 {
        let rest = content.drop_first();
        law_first_text(rest, at - 1);
        if content[0] is Other {
            assert forall|i: int| 0 <= i < rest.len() implies #[trigger] rest[i] == content[i + 1] by {}
            if forall|i: int| 0 <= i < rest.len() ==> (#[trigger] rest[i]) is Other {
                assert forall|i: int| 0 <= i < content.len() implies (
                #[trigger] content[i]) is Other by {
                    if i > 0 {
                        assert(rest[i - 1] is Other);
                    }
                }
            }
            if forall|i: int| 0 <= i < content.len() ==> (#[trigger] content[i]) is Other {
                assert forall|i: int| 0 <= i < rest.len() implies (#[trigger] rest[i]) is Other by {
                    assert(content[i + 1] is Other);
                }
            }
            if 0 < at < content.len() && (forall|i: int|
                0 <= i < at ==> (#[trigger] content[i]) is Other) {
                assert forall|i: int| 0 <= i < at - 1 implies (#[trigger] rest[i]) is Other by {
                    assert(content[i + 1] is Other);
                }
            }
        }
    }
}

/// A message of the user that holds text adds its text behind those of the messages before.
pub proof fn law_user_text_more(messages: Seq<Message>, message: Message, text: Seq<char>)
    requires
        message.role == Role::User,
        first_text(message.content@) == Some(text),
    ensures
        user_texts(messages.push(message)) == user_texts(messages).push(text),
        user_texts(Seq::empty()).len() == 0,
{
    assert(messages.push(message).drop_last() =~= messages);
}

/// A conversation is on what the user asked first, whole, and on what the user said last, whole,
/// where that is not the same again.
pub proof fn law_context_is_whole(
    first: Seq<char>,
    between: Seq<Seq<char>>,
    last: Seq<char>,
)
    ensures
        text::is_blank(first) ==> conversation_context(seq![first] + between) is None,
        !text::is_blank(first) ==> conversation_context(seq![first]) == Some(first),
        !text::is_blank(first) && text::trimmed(first) == text::trimmed(last)
            ==> conversation_context(seq![first] + between + seq![last]) == Some(first),
        !text::is_blank(first) && text::trimmed(first) != text::trimmed(last)
            ==> conversation_context(seq![first] + between + seq![last]) == Some(
            "Original request: "@ + first + "\n\nFollow-up: "@ + last,
        ),
        conversation_context(Seq::empty()) is None,
{
    let texts = seq![first] + between + seq![last];
    assert(texts.first() == first && texts.last() == last);
    assert((seq![first] + between).first() == first);
}

/// A reminder comes trimmed under a heading of its own, two lines below what was there before.
pub proof fn law_reminder_has_a_heading(split: SplitView, reminder: Seq<char>)
    requires
        !text::is_blank(reminder),
    ensures
        split.dynamic_part.len() > 0 ==> with_reminder(split, Some(reminder)).dynamic_part
            == split.dynamic_part + "\n\n# System Reminder\n\n"@ + text::trimmed(reminder),
        split.dynamic_part.len() == 0 ==> with_reminder(split, Some(reminder)).dynamic_part
            == "# System Reminder\n\n"@ + text::trimmed(reminder),
{
    reveal_strlit("\n\n");
    reveal_strlit("# System Reminder\n\n");
    reveal_strlit("\n\n# System Reminder\n\n");
    assert("\n\n"@ + "# System Reminder\n\n"@ =~= "\n\n# System Reminder\n\n"@);
}

/// A skill is found by its name wherever it stands, the first place included; of two skills with
/// one name the first is.
pub proof fn law_skill_is_found(skills: Seq<Skill>, at: int)
    requires
        0 <= at < skills.len(),
        forall|i: int| 0 <= i < at ==> (#[trigger] skills[i]).name@ != skills[at].name@,
    ensures
        skill_prompt(skills, skills[at].name@) == Some(skills[at].prompt@),
    decreases skills.len(),
{
    if at > 0 {
        let rest = skills.drop_first();
        assert(skills[0].name@ != skills[at].name@);
        assert forall|i: int| 0 <= i < at - 1 implies (#[trigger] rest[i]).name@ != rest[at
            - 1].name@ by {
            assert(skills[i + 1].name@ != skills[at].name@);
        }
        law_skill_is_found(rest, at - 1);
    }
}

/// No skill is found by a name exactly where none has that name.
pub proof fn law_unknown_skill(skills: Seq<Skill>, name: Seq<char>)
    ensures
        skill_prompt(skills, name) is None <==> forall|i: int|
            0 <= i < skills.len() ==> (#[trigger] skills[i]).name@ != name,
    decreases skills.len(),
{
    if skills.len() > 0 {
        let rest = skills.drop_first();
        law_unknown_skill(rest, name);
        if forall|i: int| 0 <= i < rest.len() ==> (#[trigger] rest[i]).name@ != name {
            assert forall|i: int| 0 < i < skills.len() implies (#[trigger] skills[i]).name@
                != name by {
                assert(rest[i - 1].name@ != name);
            }
        }
        if forall|i: int| 0 <= i < skills.len() ==> (#[trigger] skills[i]).name@ != name {
            assert forall|i: int| 0 <= i < rest.len() implies (#[trigger] rest[i]).name@ != name by {
                assert(skills[i + 1].name@ != name);
            }
        }
    }
}

/// The prompt of the active skill goes into the system prompt, and that of no other: it is the
/// prompt of a skill that the agent has under the name of the active one, and there is one
/// exactly where a skill is active and the agent has it.
pub proof fn law_active_skill(agent: Agent)
    ensures
        agent.active_skill is None ==> agent.active_skill_prompt() is None,
        agent.active_skill matches Some(name) ==> {
            &&& agent.active_skill_prompt() is None <==> forall|i: int|
                0 <= i < agent.skills@.len() ==> (#[trigger] agent.skills@[i]).name@ != name@
            &&& forall|i: int|
                0 <= i < agent.skills@.len() && agent.skills@[i].name@ == name@ && (forall|j: int|
                    0 <= j < i ==> (#[trigger] agent.skills@[j]).name@ != name@)
                    ==> agent.active_skill_prompt() == Some((#[trigger] agent.skills@[i]).prompt@)
        },
{
    if let Some(name) = agent.active_skill {
        law_unknown_skill(agent.skills@, name@);
        assert forall|i: int|
            0 <= i < agent.skills@.len() && agent.skills@[i].name@ == name@ && (forall|j: int|
                0 <= j < i ==> (#[trigger] agent.skills@[j]).name@ != name@)
                implies agent.active_skill_prompt() == Some((#[trigger] agent.skills@[i]).prompt@) by {
            law_skill_is_found(agent.skills@, i);
        }
    }
}

/// What is logged of the size of a prompt gives the sum of the tokens before its two parts, and
/// each part of the context by its label and its size.
pub proof fn law_accounting(
    system_tokens: nat,
    tool_tokens: nat,
    parts: Seq<ContextPart>,
    part: ContextPart,
)
    ensures
        accounting_text(system_tokens, tool_tokens, None) == "Prompt prefix estimate: total="@
            + text::decimal(system_tokens + tool_tokens) + " tokens (system="@ + text::decimal(
            system_tokens,
        ) + " tools="@ + text::decimal(tool_tokens) + seq![')'],
        accounting_text(system_tokens, tool_tokens, Some(Seq::empty())) == "Prompt prefix: total="@
            + text::decimal(system_tokens + tool_tokens) + " tok (sys="@ + text::decimal(
            system_tokens,
        ) + " tools="@ + text::decimal(tool_tokens) + ") | []"@,
        accounting_text(system_tokens, tool_tokens, Some(parts.push(part))) == accounting_text(
            system_tokens,
            tool_tokens,
            Some(parts),
        ).drop_last() + (if parts.len() > 0 {
            ", "@
        } else {
            Seq::empty()
        }) + part.label@ + seq!['='] + text::decimal(part.chars as nat) + "B]"@,
{
    reveal_strlit(")");
    reveal_strlit("]");
    reveal_strlit("=");
    reveal_strlit("B");
    reveal_strlit("B]");
    reveal_strlit(") | [");
    reveal_strlit(") | []");
    assert(")"@ =~= seq![')'] && "="@ =~= seq!['=']);
    assert("B"@ + "]"@ =~= "B]"@);
    assert(") | ["@ + "]"@ =~= ") | []"@);
    let none = Seq::new(0, |i: int| part_text(Seq::<ContextPart>::empty()[i]));
    assert(text::joined(none, ", "@) =~= Seq::<char>::empty());
    let all = parts.push(part);
    let after = Seq::new(all.len(), |i: int| part_text(all[i]));
    let before = Seq::new(parts.len(), |i: int| part_text(parts[i]));
    assert(after.drop_last() =~= before);
    assert(after.last() == part_text(part));
    let head = "Prompt prefix: total="@ + text::decimal(system_tokens + tool_tokens)
        + " tok (sys="@ + text::decimal(system_tokens) + " tools="@ + text::decimal(tool_tokens)
        + ") | ["@;
    assert(accounting_text(system_tokens, tool_tokens, Some(Seq::empty())) =~= head + Seq::<
        char,
    >::empty() + "]"@);
    assert((head + text::joined(before, ", "@) + "]"@).drop_last() =~= head + text::joined(
        before,
        ", "@,
    ));
}

/// What is logged of a task is its size in bytes and the task, or as much of its start as fits in
/// eighty bytes; where there is no task, that is logged as well.
pub proof fn law_task_is_logged(task: Seq<char>)
    ensures
        ({
            let start = "Auto-enrich: starting auto_enrich_task()"@;
            let found = "Auto-enrich: extracted user task ("@ + text::decimal(text::byte_len(task))
                + " chars): "@;
            let lines = task_lines(Some(task));
            &&& lines.len() == 2
            &&& lines[0] == (LineView { level: Level::Info, text: start })
            &&& lines[1].level == Level::Info
            &&& text::byte_len(task) <= 80 ==> lines[1].text == found + task
            &&& exists|n: int|
                0 <= n <= task.len() && text::byte_len(task.take(n)) <= 80 && (n < task.len()
                    ==> text::byte_len(task.take(n + 1)) > 80) && lines[1].text == found
                    + #[trigger] task.take(n)
            &&& task_lines(None) == seq![
                LineView { level: Level::Info, text: start },
                LineView {
                    level: Level::Info,
                    text: "Auto-enrich: extracted user task (0 chars): "@,
                },
                LineView {
                    level: Level::Info,
                    text: "Auto-enrich: user task is empty, skipping"@,
                },
            ]
        }),
{
    text::law_excerpt(task, 80);
    let kept = text::excerpt(task, 80);
    assert(task.take(kept.len() as int) =~= kept);
    let none = Seq::<char>::empty();
    text::law_bytes_add_up(none, none, 'a');
    text::law_decimal_digits(0, 0);
    reveal_strlit("Auto-enrich: extracted user task (");
    reveal_strlit(" chars): ");
    reveal_strlit("Auto-enrich: extracted user task (0 chars): ");
    assert("Auto-enrich: extracted user task ("@ + text::decimal(0) + " chars): "@ + none
        =~= "Auto-enrich: extracted user task (0 chars): "@);
}

/// A system prompt in two parts stands for its two parts.
pub proof fn law_split(split: SplitSystemPrompt)
    ensures
        split@.static_part == split.static_part@,
        split@.dynamic_part == split.dynamic_part@,
{
}

/// An override is the whole system prompt, whatever else the agent has. Without one the prompt is
/// assembled from all there is: the memory and the working directory as they are, whether the
/// session is a canary, the prompt of the active skill, and the name and the description of each
/// skill, in order.
pub proof fn law_prompt_of_all_there_is(agent: &Agent, memory: Option<&str>, plan: PromptPlan)
    requires
        call_ensures(Agent::build_system_prompt_split, (agent, memory), plan),
    ensures
        plan is Given <==> agent.system_prompt_override is Some,
        plan matches PromptPlan::Given(split) ==> split.static_part@
            == agent.system_prompt_override->0@ && split.dynamic_part@.len() == 0,
        plan matches PromptPlan::Assemble(inputs) ==> {
            &&& inputs.memory_prompt is Some <==> memory is Some
            &&& memory is Some ==> inputs.memory_prompt->0@ == memory->0@
            &&& inputs.working_dir is Some <==> agent.session.working_dir is Some
            &&& agent.session.working_dir is Some ==> inputs.working_dir->0@
                == agent.session.working_dir->0@
            &&& inputs.is_canary == agent.session.is_canary
            &&& inputs.skill_prompt is Some <==> agent.active_skill_prompt() is Some
            &&& inputs.skill_prompt is Some ==> agent.active_skill_prompt() == Some(
                inputs.skill_prompt->0@,
            )
            &&& inputs.available_skills@.len() == agent.skills@.len()
            &&& forall|i: int|
                0 <= i < agent.skills@.len() ==> (#[trigger] inputs.available_skills@[i]).name@
                    == agent.skills@[i].name@ && inputs.available_skills@[i].description@
                    == agent.skills@[i].description@
        },
{
}

/// The memory is told of a turn exactly where it is on, with the session and its directory, and
/// what was prepared is taken exactly where the user has just spoken as well.
pub proof fn law_memory_in_a_turn(agent: &Agent, fresh_user_turn: bool, plan: MemoryPlan)
    requires
        call_ensures(
            Agent::build_memory_prompt_nonblocking_shared,
            (agent, fresh_user_turn),
            plan,
        ),
    ensures
        plan is Tell <==> agent.memory_enabled,
        plan matches MemoryPlan::Tell { session_id, take_pending, working_dir } ==> {
            &&& session_id@ == agent.session.id@
            &&& take_pending <==> fresh_user_turn
            &&& working_dir is Some <==> agent.session.working_dir is Some
            &&& working_dir is Some ==> working_dir->0@ == agent.session.working_dir->0@
        },
{
}

} // verus!
