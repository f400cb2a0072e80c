use mlua::Lua;
use rsaudit::models::CheckStatus;
use rsaudit::scanner::{Scanner, ValidationError};

struct FakeSession {
    tag: String,
}

impl mlua::UserData for FakeSession {
    fn add_methods<M: mlua::UserDataMethods<Self>>(methods: &mut M) {
        methods.add_method("run_cmd", |_, this, _cmd: String| Ok(this.tag.clone()));
    }
}

fn passing_check(lua: &Lua, message: &str) -> mlua::Function {
    let code = format!("function(session) return true, \"{}\" end", message);
    lua.load(&code).eval().unwrap()
}

fn failing_check(lua: &Lua, message: &str) -> mlua::Function {
    let code = format!("function(session) return false, \"{}\" end", message);
    lua.load(&code).eval().unwrap()
}

fn session(lua: &Lua, tag: &str) -> mlua::AnyUserData {
    lua.create_userdata(FakeSession { tag: tag.to_string() }).unwrap()
}

fn register_simple(scanner: &mut Scanner, lua: &Lua, id: &str) {
    scanner
        .register(
            id.to_string(),
            format!("check {}", id),
            String::new(),
            "low",
            passing_check(lua, ""),
        )
        .unwrap();
}

#[test]
fn registration_keeps_order() {
    let lua = Lua::new();
    let mut scanner = Scanner::new();
    register_simple(&mut scanner, &lua, "a");
    register_simple(&mut scanner, &lua, "b");
    register_simple(&mut scanner, &lua, "c");
    assert_eq!(scanner.ids(), vec!["a", "b", "c"]);
}

#[test]
fn duplicate_id_is_rejected() {
    let lua = Lua::new();
    let mut scanner = Scanner::new();
    register_simple(&mut scanner, &lua, "a");
    let r = scanner.register(
        "a".to_string(),
        "again".to_string(),
        String::new(),
        "high",
        passing_check(&lua, ""),
    );
    assert_eq!(r, Err(ValidationError::DuplicateId));
    assert_eq!(scanner.len(), 1);
}

#[test]
fn empty_id_is_rejected() {
    let lua = Lua::new();
    let mut scanner = Scanner::new();
    let r = scanner.register(
        String::new(),
        "nameless".to_string(),
        String::new(),
        "info",
        passing_check(&lua, ""),
    );
    assert_eq!(r, Err(ValidationError::EmptyId));
    assert_eq!(scanner.len(), 0);
}

#[test]
fn unknown_severity_is_rejected() {
    let lua = Lua::new();
    let mut scanner = Scanner::new();
    let r = scanner.register(
        "a".to_string(),
        "check a".to_string(),
        String::new(),
        "catastrophic",
        passing_check(&lua, ""),
    );
    assert_eq!(r, Err(ValidationError::UnknownSeverity));
    assert_eq!(scanner.len(), 0);
}

#[test]
fn exclusion_is_subtractive_and_ordered() {
    let lua = Lua::new();
    let mut scanner = Scanner::new();
    register_simple(&mut scanner, &lua, "a");
    register_simple(&mut scanner, &lua, "b");
    register_simple(&mut scanner, &lua, "c");
    scanner.exclude_checks(&vec!["b".to_string()]);
    assert_eq!(scanner.ids(), vec!["a", "c"]);
    let results = scanner.run_checks(&session(&lua, "host"));
    let executed: Vec<String> = results.iter().map(|r| r.id.clone()).collect();
    assert_eq!(executed, vec!["a", "c"]);
}

#[test]
fn exclusion_is_idempotent() {
    let lua = Lua::new();
    let mut scanner = Scanner::new();
    register_simple(&mut scanner, &lua, "a");
    register_simple(&mut scanner, &lua, "b");
    register_simple(&mut scanner, &lua, "c");
    let ids = vec!["b".to_string()];
    scanner.exclude_checks(&ids);
    let once = scanner.ids();
    scanner.exclude_checks(&ids);
    assert_eq!(scanner.ids(), once);
}

#[test]
fn excluding_unknown_id_is_a_no_op() {
    let lua = Lua::new();
    let mut scanner = Scanner::new();
    register_simple(&mut scanner, &lua, "a");
    scanner.exclude_checks(&vec!["zz".to_string()]);
    assert_eq!(scanner.ids(), vec!["a"]);
}

#[test]
fn one_result_per_remaining_check() {
    let lua = Lua::new();
    let mut scanner = Scanner::new();
    register_simple(&mut scanner, &lua, "a");
    register_simple(&mut scanner, &lua, "b");
    let results = scanner.run_checks(&session(&lua, "host"));
    assert_eq!(results.len(), 2);
    assert_eq!(results[0].id, "a");
    assert_eq!(results[1].id, "b");
}

#[test]
fn failing_check_reports_fail_with_details() {
    let lua = Lua::new();
    let mut scanner = Scanner::new();
    scanner
        .register(
            "ssh".to_string(),
            "ssh port".to_string(),
            String::new(),
            "high",
            failing_check(&lua, "port 22 open"),
        )
        .unwrap();
    let results = scanner.run_checks(&session(&lua, "host"));
    assert_eq!(results.len(), 1);
    assert_eq!(results[0].status, CheckStatus::Fail);
    assert_eq!(results[0].details, Some("port 22 open".to_string()));
}

#[test]
fn passing_check_with_empty_message_has_no_details() {
    let lua = Lua::new();
    let mut scanner = Scanner::new();
    register_simple(&mut scanner, &lua, "a");
    let results = scanner.run_checks(&session(&lua, "host"));
    assert_eq!(results[0].status, CheckStatus::Pass);
    assert_eq!(results[0].details, None);
}

#[test]
fn faulting_check_is_isolated() {
    let lua = Lua::new();
    let mut scanner = Scanner::new();
    let broken: mlua::Function = lua.load("function(session) error(\"boom\") end").eval().unwrap();
    scanner
        .register("bad".to_string(), "broken".to_string(), String::new(), "low", broken)
        .unwrap();
    register_simple(&mut scanner, &lua, "good");
    let results = scanner.run_checks(&session(&lua, "host"));
    assert_eq!(results.len(), 2);
    assert_eq!(results[0].status, CheckStatus::Error);
    assert!(results[0].details.as_ref().unwrap().contains("boom"));
    assert_eq!(results[1].status, CheckStatus::Pass);
}

#[test]
fn wrong_return_shape_is_an_error_outcome() {
    let lua = Lua::new();
    let mut scanner = Scanner::new();
    let odd: mlua::Function = lua.load("function(session) return 42 end").eval().unwrap();
    scanner
        .register("odd".to_string(), "odd".to_string(), String::new(), "low", odd)
        .unwrap();
    let results = scanner.run_checks(&session(&lua, "host"));
    assert_eq!(results[0].status, CheckStatus::Error);
}

#[test]
fn sessions_are_isolated_per_context() {
    let lua_one = Lua::new();
    let lua_two = Lua::new();
    let mut scanner_one = Scanner::new();
    let mut scanner_two = Scanner::new();
    let echo_one: mlua::Function =
        lua_one.load("function(session) return true, session:run_cmd(\"hostname\") end").eval().unwrap();
    let echo_two: mlua::Function =
        lua_two.load("function(session) return true, session:run_cmd(\"hostname\") end").eval().unwrap();
    scanner_one
        .register("echo".to_string(), "echo".to_string(), String::new(), "info", echo_one)
        .unwrap();
    scanner_two
        .register("echo".to_string(), "echo".to_string(), String::new(), "info", echo_two)
        .unwrap();
    let results_one = scanner_one.run_checks(&session(&lua_one, "device-a"));
    let results_two = scanner_two.run_checks(&session(&lua_two, "device-b"));
    assert_eq!(results_one[0].details, Some("device-a".to_string()));
    assert_eq!(results_two[0].details, Some("device-b".to_string()));
}

#[test]
fn check_carries_its_own_metadata() {
    let lua = Lua::new();
    let mut scanner = Scanner::new();
    scanner
        .register(
            "fw".to_string(),
            "firewall".to_string(),
            "checks the firewall".to_string(),
            "critical",
            passing_check(&lua, "ok"),
        )
        .unwrap();
    let results = scanner.run_checks(&session(&lua, "host"));
    assert_eq!(results[0].id, "fw");
    assert_eq!(results[0].name, "firewall");
    assert_eq!(results[0].description, "checks the firewall");
    assert_eq!(results[0].severity, rsaudit::models::SeverityLevel::Critical);
    assert_eq!(results[0].details, Some("ok".to_string()));
}
