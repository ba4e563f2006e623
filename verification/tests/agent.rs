use mimir_bridge::agent::{
    Agent, ContentBlock, ContextPart, MemoryPlan, Message, PromptPlan, Role, Session, Skill,
    SplitSystemPrompt,
};
use mimir_bridge::bridge::BridgeOutcome;
use mimir_bridge::enrich::{
    calling_line, enrich_from_answer, enrich_from_outcome, enrich_request_text,
    format_mimir_enrich_response,
};
use mimir_bridge::exchange::read;
use mimir_bridge::logging::Level;
use mimir_bridge::text::excerpt_of;

fn agent() -> Agent {
    Agent {
        session: Session {
            id: "s1".to_string(),
            working_dir: None,
            is_canary: false,
            messages: vec![],
        },
        memory_enabled: true,
        system_prompt_override: None,
        active_skill: None,
        skills: vec![],
        current_turn_system_reminder: None,
    }
}

fn said(role: Role, texts: &[&str]) -> Message {
    Message { role, content: texts.iter().map(|text| ContentBlock::Text(text.to_string())).collect() }
}

fn context(messages: Vec<Message>) -> Option<String> {
    let mut agent = agent();
    agent.session.messages = messages;
    let context = agent.extract_conversation_context();
    assert_eq!(agent.enrichment_task().task, context);
    context
}

fn user(text: &str) -> Message {
    said(Role::User, &[text])
}

#[test]
fn context_of_one_message() {
    assert_eq!(context(vec![]), None);
    assert_eq!(context(vec![user(" fix it ")]), Some(" fix it ".to_string()));
    assert_eq!(context(vec![user(" \n ")]), None);
    assert_eq!(context(vec![user(" "), user("go on")]), None);
}

#[test]
fn context_of_a_follow_up() {
    assert_eq!(
        context(vec![user("fix it"), said(Role::Assistant, &["done"]), user("now test")]),
        Some("Original request: fix it\n\nFollow-up: now test".to_string())
    );
    assert_eq!(
        context(vec![user("fix it"), user("middle"), user("now test")]),
        Some("Original request: fix it\n\nFollow-up: now test".to_string())
    );
    assert_eq!(
        context(vec![user("fix it"), user("")]),
        Some("Original request: fix it\n\nFollow-up: ".to_string())
    );
}

#[test]
fn asking_again() {
    assert_eq!(context(vec![user("fix it"), user("no"), user("  fix it\n")]), Some("fix it".to_string()));
}

#[test]
fn only_texts_of_the_user_count() {
    let result = Message { role: Role::User, content: vec![ContentBlock::Other] };
    let mixed = Message {
        role: Role::User,
        content: vec![
            ContentBlock::Other,
            ContentBlock::Text("a".to_string()),
            ContentBlock::Text("b".to_string()),
        ],
    };
    assert_eq!(context(vec![said(Role::Assistant, &["hi"])]), None);
    assert_eq!(context(vec![result, said(Role::Assistant, &["x"]), mixed]), Some("a".to_string()));
}

#[test]
fn white_space_is_that_of_unicode() {
    let spaces = [
        '\u{9}', '\u{a}', '\u{b}', '\u{c}', '\u{d}', '\u{20}', '\u{85}', '\u{a0}', '\u{1680}',
        '\u{2000}', '\u{2001}', '\u{2002}', '\u{2003}', '\u{2004}', '\u{2005}', '\u{2006}',
        '\u{2007}', '\u{2008}', '\u{2009}', '\u{200a}', '\u{2028}', '\u{2029}', '\u{202f}',
        '\u{205f}', '\u{3000}',
    ];
    let mut agent = agent();
    for code in 0..=0x10ffffu32 {
        if let Some(c) = char::from_u32(code) {
            agent.session.messages = vec![user(&c.to_string())];
            assert_eq!(agent.extract_conversation_context().is_none(), spaces.contains(&c));
        }
    }
}

fn remind(dynamic: &str, reminder: Option<&str>) -> String {
    let mut agent = agent();
    agent.current_turn_system_reminder = reminder.map(|text| text.to_string());
    let mut split = SplitSystemPrompt {
        static_part: "static".to_string(),
        dynamic_part: dynamic.to_string(),
    };
    agent.append_current_turn_system_reminder(&mut split);
    assert_eq!(split.static_part, "static");
    split.dynamic_part
}

#[test]
fn reminder_of_the_turn() {
    assert_eq!(remind("d", Some("  be brief\n")), "d\n\n# System Reminder\n\nbe brief");
    assert_eq!(remind("", Some("be brief")), "# System Reminder\n\nbe brief");
    assert_eq!(remind("d", Some(" \t")), "d");
    assert_eq!(remind("d", None), "d");
}

#[test]
fn memory_in_a_turn() {
    let mut agent = agent();
    agent.session.working_dir = Some("/w".to_string());
    for fresh in [true, false] {
        assert_eq!(
            agent.build_memory_prompt_nonblocking_shared(fresh),
            MemoryPlan::Tell {
                session_id: "s1".to_string(),
                take_pending: fresh,
                working_dir: Some("/w".to_string()),
            }
        );
    }
    agent.memory_enabled = false;
    assert_eq!(agent.build_memory_prompt_nonblocking_shared(true), MemoryPlan::Nothing);
}

#[test]
fn system_prompt_override() {
    let mut agent = agent();
    agent.system_prompt_override = Some("only this".to_string());
    agent.current_turn_system_reminder = Some("be brief".to_string());
    match agent.build_system_prompt_split(Some("memory")) {
        PromptPlan::Given(split) => {
            assert_eq!(split.static_part, "only this");
            assert_eq!(split.dynamic_part, "");
        }
        _ => panic!(),
    }
}

#[test]
fn system_prompt_inputs() {
    let skill = |name: &str| Skill {
        name: name.to_string(),
        description: format!("{} it", name),
        prompt: format!("how to {}", name),
    };
    let mut agent = agent();
    agent.skills = vec![skill("plan"), skill("test")];
    agent.active_skill = Some("test".to_string());
    agent.session.is_canary = true;
    agent.session.working_dir = Some("/w".to_string());
    match agent.build_system_prompt_split(Some("memory")) {
        PromptPlan::Assemble(inputs) => {
            assert_eq!(inputs.skill_prompt, Some("how to test".to_string()));
            assert_eq!(inputs.available_skills.len(), 2);
            assert_eq!(inputs.available_skills[0].name, "plan");
            assert_eq!(inputs.available_skills[1].description, "test it");
            assert!(inputs.is_canary);
            assert_eq!(inputs.memory_prompt, Some("memory".to_string()));
            assert_eq!(inputs.working_dir, Some("/w".to_string()));
        }
        _ => panic!(),
    }
    agent.active_skill = Some("cook".to_string());
    match agent.build_system_prompt_split(None) {
        PromptPlan::Assemble(inputs) => {
            assert_eq!(inputs.skill_prompt, None);
            assert_eq!(inputs.memory_prompt, None);
        }
        _ => panic!(),
    }
}

#[test]
fn accounting_of_a_prompt() {
    let agent = agent();
    assert_eq!(
        agent.log_prompt_prefix_accounting(100, 23, None),
        "Prompt prefix estimate: total=123 tokens (system=100 tools=23)"
    );
    let parts = vec![
        ContextPart { label: "sys".to_string(), chars: 400 },
        ContextPart { label: "env".to_string(), chars: 0 },
    ];
    assert_eq!(
        agent.log_prompt_prefix_accounting(100, 23, Some(&parts)),
        "Prompt prefix: total=123 tok (sys=100 tools=23) | [sys=400B, env=0B]"
    );
}

#[test]
fn request_for_context() {
    assert_eq!(
        enrich_request_text("fix \"it\"").unwrap(),
        r#"{"action":"enrich_task","params":{"task":"fix \"it\""}}"#
    );
}

fn enriched(text: &str) -> String {
    format_mimir_enrich_response(&read(text).unwrap())
}

#[test]
fn context_from_an_answer() {
    assert_eq!(
        enriched(r#"{"status":"ok","context":"C","routed_to":"vector","elapsed_ms":12}"#),
        "[Mimir: enriched via vector in 12ms]\n\nC"
    );
    assert_eq!(enriched(r#"{"status":"ok","context":"C"}"#), "C");
    assert_eq!(
        enriched(r#"{"status":"no_results","suggestion":"S"}"#),
        format!("[Mimir: no project context found for this {}. S]", "task")
    );
    assert_eq!(enriched(r#"{"status":"odd","context":"C"}"#), "[Mimir: status=odd] C");
    assert_eq!(enriched("{}"), "[Mimir: status=unknown] ");
    assert_eq!(enriched(r#"{"error":"E","status":"ok"}"#), "[Mimir enrich_task error: E]");
}

#[test]
fn context_from_a_run() {
    let exited = |success: bool, stdout: &[u8]| BridgeOutcome::Exited {
        success,
        status: "exit status: 0".to_string(),
        stdout: stdout.to_vec(),
        stderr: vec![],
    };
    let check = |outcome: &BridgeOutcome, context: Option<&str>, level: Level, line: &str| {
        let enrichment = enrich_from_outcome(outcome, 34);
        assert_eq!(enrichment.context.as_deref(), context);
        assert_eq!(enrichment.line.level, level);
        assert_eq!(enrichment.line.text, line);
    };
    let answer = "{\"status\":\"ok\",\"context\":\"caf\u{e9}\"}".as_bytes();
    check(
        &exited(true, answer),
        Some("caf\u{e9}"),
        Level::Info,
        "Auto-enrich: got context (5 chars, 34ms)",
    );
    check(
        &exited(false, answer),
        None,
        Level::Warn,
        "Auto-enrich: Mimir bridge failed after 34ms (non-fatal)",
    );
    check(
        &exited(true, b"oops"),
        None,
        Level::Warn,
        "Auto-enrich: failed to parse Mimir response: expected value at line 1 column 1",
    );
    check(
        &BridgeOutcome::TimedOut,
        None,
        Level::Warn,
        "Auto-enrich: Mimir bridge timed out after 120s",
    );
    check(
        &BridgeOutcome::Failed("gone".to_string()),
        None,
        Level::Warn,
        "Auto-enrich: Mimir bridge error: gone",
    );
    assert_eq!(enrich_from_answer(Err("bad".to_string()), 1).context, None);
}

fn task_lines(text: &str) -> Vec<String> {
    let mut agent = agent();
    agent.session.messages = vec![user(text)];
    let lines = agent.enrichment_task().lines;
    assert!(lines.iter().all(|line| line.level == Level::Info));
    lines.into_iter().map(|line| line.text).collect()
}

#[test]
fn lines_of_a_task() {
    assert_eq!(
        task_lines("fix it"),
        vec![
            "Auto-enrich: starting auto_enrich_task()",
            "Auto-enrich: extracted user task (6 chars): fix it",
        ]
    );
    assert_eq!(
        task_lines("  "),
        vec![
            "Auto-enrich: starting auto_enrich_task()",
            "Auto-enrich: extracted user task (0 chars): ",
            "Auto-enrich: user task is empty, skipping",
        ]
    );
    let long = "a".repeat(79) + "\u{e9}\u{e9}";
    assert_eq!(
        task_lines(&long)[1],
        format!("Auto-enrich: extracted user task (83 chars): {}", "a".repeat(79))
    );
    let long = "b".repeat(300);
    assert_eq!(
        task_lines(&long)[1],
        format!("Auto-enrich: extracted user task (300 chars): {}", "b".repeat(80))
    );
    let line = calling_line(&long);
    assert_eq!(line.level, Level::Info);
    assert_eq!(
        line.text,
        format!("Auto-enrich: calling Mimir enrich_task for task: {}", "b".repeat(100))
    );
}

#[test]
fn excerpts_end_between_characters() {
    let text = "a\u{e9}\u{20ac}\u{1f600}z";
    let expected = [0, 1, 1, 3, 3, 3, 6, 6, 6, 6, 10, 11, 11];
    for (limit, end) in expected.into_iter().enumerate() {
        assert_eq!(excerpt_of(text, limit), &text[..end]);
    }
    assert_eq!(excerpt_of("", 5), "");
}
