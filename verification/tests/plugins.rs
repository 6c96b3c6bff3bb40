use std::io::Write;

use github_bot_lib::plugins::color::{color_by_name, cprint, Color};
use github_bot_lib::plugins::encoding::{EventData, FieldValue, Payload};
use github_bot_lib::plugins::lifecycle::{execution_events, registration_events};
use github_bot_lib::plugins::execution::{ExecutionError, Invocation};
use github_bot_lib::plugins::loader::{
    DiscoverError, FileRead, LoadError, PluginDir, PluginRoot, RootEntry, APP_NAME,
    MANIFEST_FILENAME, PLUGINS_DIR, SCRIPT_FILENAME,
};
use github_bot_lib::plugins::manifest::{ManifestFault, ManifestField};
use github_bot_lib::plugins::sandbox::Emission;
use github_bot_lib::plugins::{
    broadcast_event, discover_plugins, Broadcast, Event, Execution, Manifest, Plugin,
};

const MOCK_MANIFEST: &str = r#"
        name = "test-plugin"
        description = "A plugin for testing"
        author = "Test Author"
        license = "Test License"
    "#;

const MOCK_SCRIPT_SUCCESS: &str = r#"
        // Rhai script to handle the event data (passed as 'event_data')
        let event_type = "UNKNOWN";

        // FIX: Check the type using type_of(), which is standard for Dynamic values in Rhai.
        let data_type = event_data.type_of();

        if data_type == "string" {
            // Unit variants (like Init, End) are serialized as a string
            event_type = event_data;
        } else if data_type == "map" {
            // Struct/Tuple variants are serialized as a map where the key is the variant name
            if event_data.keys.len() > 0 {
                event_type = event_data.keys[0];
            }
        }

        // Using concatenation to avoid template string syntax error
        print("Rhai received event: " + event_type);

        // Implicit return of last expression (unit or true) is success
        true
    "#;

const MOCK_SCRIPT_FAIL: &str = r#"
        // This script intentionally fails by causing a runtime error
        let zero = 0;
        1 / zero; // Runtime error: Division by zero
    "#;

/// A script that prints the name of the event and nothing else.
const DISCRIMINANT_SCRIPT: &str = r#"
        if event_data.type_of() == "string" {
            print(event_data);
        } else {
            print(event_data.keys()[0]);
        }
    "#;

/// What the host finds in a plugin directory with the two files.
fn plugin_dir(base: &str, plugin_name: &str, script: Option<&str>, manifest: &str) -> PluginDir {
    let path = format!("{base}/{APP_NAME}/{PLUGINS_DIR}/{plugin_name}");
    PluginDir {
        script_path: format!("{path}/{SCRIPT_FILENAME}"),
        script_found: script.is_some(),
        manifest_path: format!("{path}/{MANIFEST_FILENAME}"),
        manifest: FileRead::Content(manifest.to_string()),
        path,
    }
}

fn load(plugin_name: &str) -> Plugin {
    Plugin::from_dir(&plugin_dir("/tmp/cfg", plugin_name, Some(""), MOCK_MANIFEST)).unwrap()
}

fn lines(output: &[Emission]) -> Vec<String> {
    output
        .iter()
        .map(|emission| match emission {
            Emission::Line(text) => text.clone(),
            Emission::Colored(color, text) => format!("{color:?}:{text}"),
            Emission::Diagnostic(text) => format!("!{text}"),
            Emission::Debug(text) => format!("?{text}"),
        })
        .collect()
}

// --- Plugin::from_dir ---

#[test]
fn test_plugin_from_dir_success() {
    let dir = plugin_dir("/tmp/cfg", "valid-plugin", Some(MOCK_SCRIPT_SUCCESS), MOCK_MANIFEST);

    let result = Plugin::from_dir(&dir);

    assert!(result.is_ok());
    let plugin = result.unwrap();
    assert_eq!(plugin.manifest.name, "test-plugin");
}

#[test]
fn test_plugin_from_dir_missing_script() {
    let dir = plugin_dir("/tmp/cfg", "my-plugin", None, MOCK_MANIFEST);

    let result = Plugin::from_dir(&dir);

    assert!(result.is_err());
    let err_msg = result.unwrap_err().message();
    assert!(err_msg.contains("Missing required script"));
}

#[test]
fn test_plugin_from_dir_invalid_manifest() {
    let invalid_manifest = "name = 123\nnot_valid = {"; // Invalid TOML
    let dir = plugin_dir("/tmp/cfg", "invalid-plugin", Some(MOCK_SCRIPT_SUCCESS), invalid_manifest);

    let result = Plugin::from_dir(&dir);

    assert!(result.is_err());
    let err_msg = result.unwrap_err().message();
    assert!(err_msg.contains("Failed to parse TOML manifest"));
}

#[test]
fn from_dir_keeps_the_paths_and_every_field() {
    let manifest = r#"
        name = "echo"
        description = "d"
        author = "a"
        homepage = "https://example.com"
        repo = "octocat/echo"
        extra = 7
    "#;
    let dir = plugin_dir("/cfg", "echo", Some("1"), manifest);
    let plugin = Plugin::from_dir(&dir).unwrap();
    assert_eq!(plugin.path, "/cfg/github-bot/plugins/echo");
    assert_eq!(plugin.script_path, "/cfg/github-bot/plugins/echo/run.rhai");
    assert_eq!(plugin.manifest.name, "echo");
    assert_eq!(plugin.manifest.description, "d");
    assert_eq!(plugin.manifest.author, "a");
    assert_eq!(plugin.manifest.homepage.as_deref(), Some("https://example.com"));
    assert_eq!(plugin.manifest.repo.as_deref(), Some("octocat/echo"));
    assert_eq!(plugin.manifest.license, None);
}

#[test]
fn from_dir_reports_the_script_before_the_manifest() {
    let mut dir = plugin_dir("/cfg", "broken", None, "name = ");
    dir.manifest = FileRead::Failed("permission denied".to_string());
    match Plugin::from_dir(&dir) {
        Err(LoadError::MissingScript { script_path }) => {
            assert_eq!(script_path, "/cfg/github-bot/plugins/broken/run.rhai")
        }
        other => panic!("unexpected: {other:?}"),
    }
}

#[test]
fn from_dir_unreadable_manifest() {
    let mut dir = plugin_dir("/cfg", "locked", Some("1"), "");
    dir.manifest = FileRead::Failed("permission denied".to_string());
    let error = Plugin::from_dir(&dir).unwrap_err();
    assert_eq!(
        error.message(),
        "Failed to read manifest file: /cfg/github-bot/plugins/locked/manifest.toml"
    );
    assert_eq!(
        error.report(),
        "Failed to read manifest file: /cfg/github-bot/plugins/locked/manifest.toml\n\nCaused by:\n    permission denied"
    );
}

// --- Manifest ---

#[test]
fn manifest_missing_required_field_is_a_fault() {
    let fault = Manifest::parse("name = \"x\"\nauthor = \"a\"\n").unwrap_err();
    assert!(matches!(fault, ManifestFault::Missing(ManifestField::Description)));
    assert_eq!(fault.diagnostic(), "missing field `description`");
}

#[test]
fn manifest_field_of_another_type_is_a_fault() {
    let fault = Manifest::parse("name = 123\ndescription = \"d\"\nauthor = \"a\"\n").unwrap_err();
    assert!(matches!(fault, ManifestFault::NotText(ManifestField::Name)));
    assert_eq!(fault.diagnostic(), "invalid type for field `name`: expected a string");

    let fault =
        Manifest::parse("name = \"n\"\ndescription = \"d\"\nauthor = \"a\"\nrepo = true\n")
            .unwrap_err();
    assert!(matches!(fault, ManifestFault::NotText(ManifestField::Repo)));
}

#[test]
fn manifest_syntax_error_carries_the_parser_diagnostic() {
    let fault = Manifest::parse("name = invalid\n").unwrap_err();
    match fault {
        ManifestFault::Syntax(diagnostic) => assert!(diagnostic.contains("TOML parse error")),
        other => panic!("unexpected: {other:?}"),
    }
}

#[test]
fn manifest_from_entries_takes_the_first_fault_in_field_order() {
    let entries = vec![
        ("author".to_string(), None),
        ("description".to_string(), None),
        ("name".to_string(), Some("n".to_string())),
    ];
    let fault = Manifest::from_entries(&entries).unwrap_err();
    assert!(matches!(fault, ManifestFault::NotText(ManifestField::Description)));

    let entries = vec![
        ("name".to_string(), Some("n".to_string())),
        ("description".to_string(), Some("d".to_string())),
        ("author".to_string(), Some("a".to_string())),
        ("license".to_string(), Some("MIT".to_string())),
    ];
    let manifest = Manifest::from_entries(&entries).unwrap();
    assert_eq!(manifest.name, "n");
    assert_eq!(manifest.description, "d");
    assert_eq!(manifest.author, "a");
    assert_eq!(manifest.license.as_deref(), Some("MIT"));
    assert_eq!(manifest.homepage, None);
    assert_eq!(manifest.repo, None);
}

// --- discover_plugins ---

#[test]
fn test_discover_plugins_none_found() {
    let found = discover_plugins(&PluginRoot::Absent).unwrap();
    assert!(found.plugins.is_empty());
    assert!(found.diagnostics.is_empty());
}

#[test]
fn test_discover_plugins_multiple_found() {
    // Setup two successful plugins
    let manifest_1 = MOCK_MANIFEST.replace("test-plugin", "a-first-plugin");
    let manifest_2 = MOCK_MANIFEST.replace("test-plugin", "b-second-plugin");
    // Setup one bad plugin that should be ignored by discover_plugins
    let invalid_manifest = "name = invalid\n";
    let root = PluginRoot::Listing(vec![
        RootEntry::Directory(plugin_dir("/t", "plugin-a", Some(MOCK_SCRIPT_SUCCESS), &manifest_1)),
        RootEntry::Directory(plugin_dir("/t", "plugin-b", Some(MOCK_SCRIPT_SUCCESS), &manifest_2)),
        RootEntry::Directory(plugin_dir(
            "/t",
            "plugin-c-bad",
            Some(MOCK_SCRIPT_SUCCESS),
            invalid_manifest,
        )),
    ]);

    let found = discover_plugins(&root).unwrap();
    let plugins = found.plugins;

    // Only two plugins should be loaded successfully
    assert_eq!(plugins.len(), 2);

    assert_eq!(plugins[0].manifest.name, "a-first-plugin");
    assert_eq!(plugins[1].manifest.name, "b-second-plugin");

    assert_eq!(found.diagnostics.len(), 1);
    assert!(found.diagnostics[0]
        .starts_with("  [ERROR] Failed to load plugin at /t/github-bot/plugins/plugin-c-bad: Failed to parse TOML manifest: /t/github-bot/plugins/plugin-c-bad/manifest.toml\n\nCaused by:\n    "));
}

#[test]
fn discovery_keeps_the_order_of_the_listing_and_passes_files_over() {
    let manifest_1 = MOCK_MANIFEST.replace("test-plugin", "zeta");
    let manifest_2 = MOCK_MANIFEST.replace("test-plugin", "alpha");
    let root = PluginRoot::Listing(vec![
        RootEntry::NotADirectory,
        RootEntry::Directory(plugin_dir("/t", "one", Some(""), &manifest_1)),
        RootEntry::Directory(plugin_dir("/t", "no-script", None, MOCK_MANIFEST)),
        RootEntry::Directory(plugin_dir("/t", "two", Some(""), &manifest_2)),
        RootEntry::NotADirectory,
    ]);
    let found = discover_plugins(&root).unwrap();
    let names: Vec<&str> = found.plugins.iter().map(|p| p.manifest.name.as_str()).collect();
    assert_eq!(names, vec!["zeta", "alpha"]);
    assert_eq!(
        found.diagnostics,
        vec!["  [ERROR] Failed to load plugin at /t/github-bot/plugins/no-script: Missing required script: /t/github-bot/plugins/no-script/run.rhai".to_string()]
    );
}

#[test]
fn discovery_fails_without_a_config_directory() {
    match discover_plugins(&PluginRoot::NoConfigDir) {
        Err(error @ DiscoverError::NoConfigDir) => {
            assert_eq!(error.message(), "Could not determine config directory.")
        }
        other => panic!("unexpected: {other:?}"),
    }
}

#[test]
fn discovery_goes_on_where_the_root_cannot_be_listed() {
    let found = discover_plugins(&PluginRoot::Unreadable("denied".to_string())).unwrap();
    assert!(found.plugins.is_empty());
    assert_eq!(
        found.diagnostics,
        vec!["  [ERROR] Failed to read the plugin directory: denied".to_string()]
    );
}

#[test]
fn discovery_passes_over_an_entry_that_cannot_be_read() {
    let root = PluginRoot::Listing(vec![
        RootEntry::Directory(plugin_dir("/t", "one", Some(""), MOCK_MANIFEST)),
        RootEntry::Unreadable("stale handle".to_string()),
        RootEntry::Directory(plugin_dir("/t", "no-script", None, MOCK_MANIFEST)),
        RootEntry::Directory(plugin_dir("/t", "two", Some(""), MOCK_MANIFEST)),
    ]);
    let found = discover_plugins(&root).unwrap();
    assert_eq!(found.plugins.len(), 2);
    assert_eq!(found.plugins[0].path, "/t/github-bot/plugins/one");
    assert_eq!(found.plugins[1].path, "/t/github-bot/plugins/two");
    assert_eq!(
        found.diagnostics,
        vec![
            "  [ERROR] Failed to read an entry of the plugin directory: stale handle".to_string(),
            "  [ERROR] Failed to load plugin at /t/github-bot/plugins/no-script: Missing required script: /t/github-bot/plugins/no-script/run.rhai".to_string(),
        ]
    );
}

// --- Plugin::run_script ---

#[test]
fn test_plugin_run_script_success() {
    let plugin = load("run-test");
    let event = Event::CliCommandExecutionInit;

    let result = plugin.run_script(&event, &FileRead::Content(MOCK_SCRIPT_SUCCESS.to_string()));

    // Rhai script execution success means result is Ok(())
    println!("{:#?}", result);
    assert!(result.outcome.is_ok());
    assert_eq!(
        lines(&result.output),
        vec!["Rhai received event: cli-command-execution-init".to_string()]
    );
}

#[test]
fn test_plugin_run_script_failure() {
    let plugin = load("fail-test");
    let event = Event::CliCommandExecutionInit;

    let result = plugin.run_script(&event, &FileRead::Content(MOCK_SCRIPT_FAIL.to_string()));

    // Rhai script failure means result is Err
    assert!(result.outcome.is_err());
    let err_msg = result.outcome.unwrap_err().message();

    // Check for the error message that Rhai generates for division by zero
    assert!(err_msg.contains("Division by zero"));
    assert!(err_msg.starts_with("Plugin 'test-plugin' script failed during Rhai execution.\nError: "));
}

#[test]
fn run_script_unreadable_script_is_a_failure_value() {
    let plugin = load("gone");
    let execution =
        plugin.run_script(&Event::PluginRegistrationInit, &FileRead::Failed("gone".to_string()));
    assert_eq!(execution.plugin, "test-plugin");
    assert!(execution.output.is_empty());
    match execution.outcome {
        Err(error @ ExecutionError::ScriptUnreadable { .. }) => {
            assert_eq!(error.message(), "Failed to read Rhai script: /tmp/cfg/github-bot/plugins/gone/run.rhai");
            assert_eq!(
                error.report(),
                "Failed to read Rhai script: /tmp/cfg/github-bot/plugins/gone/run.rhai\n\nCaused by:\n    gone"
            );
        }
        other => panic!("unexpected: {other:?}"),
    }
}

#[test]
fn script_syntax_error_is_a_failure_value() {
    let plugin = load("syntax");
    let execution =
        plugin.run_script(&Event::PluginRegistrationInit, &FileRead::Content("let = ;".to_string()));
    assert!(matches!(execution.outcome, Err(ExecutionError::ScriptFailed { .. })));
}

#[test]
fn script_identifies_all_six_variants() {
    let plugin = load("names");
    let events = vec![
        (Event::PluginRegistrationInit, "plugin-registration-init"),
        (Event::PluginRegistered("echo".to_string()), "plugin-registered"),
        (Event::PluginRegistrationEnd, "plugin-registration-end"),
        (Event::CliCommandExecutionInit, "cli-command-execution-init"),
        (
            Event::CliCommandExecutionRun {
                command: "merge".to_string(),
                args: vec!["octocat/hello-world".to_string()],
            },
            "cli-command-execution-run",
        ),
        (Event::CliCommandExecutionEnd, "cli-command-execution-end"),
    ];
    for (event, name) in events {
        let execution =
            plugin.run_script(&event, &FileRead::Content(DISCRIMINANT_SCRIPT.to_string()));
        assert!(execution.outcome.is_ok(), "{:?}", execution.outcome);
        assert_eq!(lines(&execution.output), vec![name.to_string()]);
        assert_eq!(event.name(), name);
    }
}

#[test]
fn script_reads_the_fields_of_an_event() {
    let plugin = load("fields");
    let script = r#"
        let run = event_data["cli-command-execution-run"];
        print(run.command);
        print(run.args.len());
        print(run.args[0]);
        print(event_data.keys().len());
    "#;
    let event = Event::CliCommandExecutionRun {
        command: "merge".to_string(),
        args: vec!["octocat/hello-world".to_string()],
    };
    let execution = plugin.run_script(&event, &FileRead::Content(script.to_string()));
    assert!(execution.outcome.is_ok(), "{:?}", execution.outcome);
    assert_eq!(lines(&execution.output), vec!["merge", "1", "octocat/hello-world", "1"]);

    let script = r#"print(event_data["plugin-registered"]);"#;
    let event = Event::PluginRegistered("echo".to_string());
    let execution = plugin.run_script(&event, &FileRead::Content(script.to_string()));
    assert!(execution.outcome.is_ok(), "{:?}", execution.outcome);
    assert_eq!(lines(&execution.output), vec!["echo"]);
}

#[test]
fn script_prints_in_colors() {
    let plugin = load("colors");
    let script = r#"
        cprint("a", "BLUE");
        print_red("b");
        print_green("c");
        cprint("d", "teal");
        print("e");
    "#;
    let execution =
        plugin.run_script(&Event::PluginRegistrationEnd, &FileRead::Content(script.to_string()));
    assert!(execution.outcome.is_ok(), "{:?}", execution.outcome);
    assert_eq!(
        lines(&execution.output),
        vec![
            "Blue:a",
            "Red:b",
            "Green:c",
            "!Rhai Color Error: Unknown color 'teal'. Printing uncolored.",
            "d",
            "e",
        ]
    );
    assert!(matches!(execution.output[0], Emission::Colored(Color::Blue, _)));
}

#[test]
fn script_has_the_http_client_and_no_state_of_an_earlier_run() {
    let plugin = load("fresh");
    let first = plugin.run_script(
        &Event::PluginRegistrationInit,
        &FileRead::Content("let client = http::client(); let kept = 1;".to_string()),
    );
    assert!(first.outcome.is_ok(), "{:?}", first.outcome);
    let second = plugin
        .run_script(&Event::PluginRegistrationInit, &FileRead::Content("kept".to_string()));
    assert!(second.outcome.is_err());
}

// --- broadcast_event ---

#[test]
fn end_to_end_echo_plugin() {
    let manifest = "name = \"echo\"\ndescription = \"d\"\nauthor = \"a\"\n";
    let root = PluginRoot::Listing(vec![RootEntry::Directory(plugin_dir(
        "/t",
        "echo",
        Some(DISCRIMINANT_SCRIPT),
        manifest,
    ))]);
    let found = discover_plugins(&root).unwrap();
    assert_eq!(found.plugins.len(), 1);

    let invocations = vec![Invocation {
        plugin: &found.plugins[0],
        script: FileRead::Content(DISCRIMINANT_SCRIPT.to_string()),
    }];
    let sweep = broadcast_event(&invocations, &Event::CliCommandExecutionInit);
    assert_eq!(sweep.executions.len(), 1);
    assert!(sweep.executions[0].outcome.is_ok());
    assert_eq!(sweep.executions[0].plugin, "echo");
    assert_eq!(lines(&sweep.executions[0].output), vec!["cli-command-execution-init"]);
    assert!(sweep.diagnostics.is_empty());
}

#[test]
fn end_to_end_division_by_zero() {
    let manifest = "name = \"echo\"\ndescription = \"d\"\nauthor = \"a\"\n";
    let dir = plugin_dir("/t", "echo", Some(MOCK_SCRIPT_FAIL), manifest);
    let plugin = Plugin::from_dir(&dir).unwrap();
    let invocations =
        vec![Invocation { plugin: &plugin, script: FileRead::Content(MOCK_SCRIPT_FAIL.to_string()) }];
    let sweep = broadcast_event(&invocations, &Event::CliCommandExecutionInit);
    assert_eq!(sweep.executions.len(), 1);
    let error = sweep.executions[0].outcome.as_ref().unwrap_err();
    assert!(error.message().contains("Division by zero"));
    assert_eq!(sweep.diagnostics.len(), 1);
    assert!(sweep.diagnostics[0].starts_with(
        "Plugin execution failure for 'echo': Plugin 'echo' script failed during Rhai execution.\nError: "
    ));
    assert!(sweep.diagnostics[0].contains("Division by zero"));
}

#[test]
fn broadcast_runs_every_plugin_whatever_came_of_the_others() {
    let names = ["one", "two", "three"];
    let plugins: Vec<Plugin> = names
        .iter()
        .map(|name| {
            let manifest = MOCK_MANIFEST.replace("test-plugin", name);
            Plugin::from_dir(&plugin_dir("/t", name, Some(""), &manifest)).unwrap()
        })
        .collect();
    let scripts = [DISCRIMINANT_SCRIPT, MOCK_SCRIPT_FAIL, DISCRIMINANT_SCRIPT];
    let invocations: Vec<Invocation> = plugins
        .iter()
        .zip(scripts)
        .map(|(plugin, script)| Invocation { plugin, script: FileRead::Content(script.to_string()) })
        .collect();
    let sweep = broadcast_event(&invocations, &Event::PluginRegistrationEnd);
    assert_eq!(sweep.executions.len(), 3);
    assert!(sweep.executions[0].outcome.is_ok());
    assert!(sweep.executions[1].outcome.is_err());
    assert!(sweep.executions[2].outcome.is_ok());
    assert_eq!(lines(&sweep.executions[0].output), vec!["plugin-registration-end"]);
    assert_eq!(lines(&sweep.executions[2].output), vec!["plugin-registration-end"]);
    assert_eq!(sweep.diagnostics.len(), 1);
    assert!(sweep.diagnostics[0].starts_with("Plugin execution failure for 'two': "));
}

#[test]
fn broadcast_over_no_plugins_does_nothing() {
    let sweep = broadcast_event(&Vec::new(), &Event::PluginRegistrationInit);
    assert!(sweep.executions.is_empty());
    assert!(sweep.diagnostics.is_empty());
}

// --- Event encoding ---

#[test]
fn encode_unit_variant_is_a_bare_string() {
    match Event::PluginRegistrationInit.encode() {
        EventData::Name(name) => assert_eq!(name, "plugin-registration-init"),
        other => panic!("unexpected: {other:?}"),
    }
}

#[test]
fn encode_run_is_a_single_key_mapping_of_its_fields() {
    let event = Event::CliCommandExecutionRun {
        command: "merge".to_string(),
        args: vec!["octocat/hello-world".to_string()],
    };
    match event.encode() {
        EventData::Tagged(tag, Payload::Record(fields)) => {
            assert_eq!(tag, "cli-command-execution-run");
            assert_eq!(fields.len(), 2);
            assert_eq!(fields[0].0, "command");
            assert!(matches!(&fields[0].1, FieldValue::Text(text) if text == "merge"));
            assert_eq!(fields[1].0, "args");
            assert!(
                matches!(&fields[1].1, FieldValue::List(items) if items == &vec!["octocat/hello-world".to_string()])
            );
        }
        other => panic!("unexpected: {other:?}"),
    }
}

#[test]
fn encode_registered_carries_its_single_field() {
    match Event::PluginRegistered("echo".to_string()).encode() {
        EventData::Tagged(tag, Payload::Text(text)) => {
            assert_eq!(tag, "plugin-registered");
            assert_eq!(text, "echo");
        }
        other => panic!("unexpected: {other:?}"),
    }
}

// --- Colors ---

#[test]
fn cprint_resolves_names_whatever_their_case() {
    let all = [
        ("red", Color::Red),
        ("green", Color::Green),
        ("blue", Color::Blue),
        ("yellow", Color::Yellow),
        ("cyan", Color::Cyan),
        ("magenta", Color::Magenta),
        ("white", Color::White),
        ("black", Color::Black),
    ];
    for (name, color) in all {
        assert_eq!(color_by_name(name), Some(color));
        let emitted = cprint("m", &name.to_uppercase());
        assert_eq!(emitted.len(), 1);
        assert!(matches!(&emitted[0], Emission::Colored(c, text) if *c == color && text == "m"));
    }
    assert_eq!(color_by_name("Red"), None);
    assert_eq!(color_by_name(""), None);
    // The Kelvin sign is a capital letter whose lowercase form is `k`.
    let emitted = cprint("m", "BLAC\u{212a}");
    assert!(matches!(&emitted[0], Emission::Colored(Color::Black, _)));
}

#[test]
fn cprint_falls_back_for_an_unknown_color() {
    let emitted = cprint("hello", "Teal");
    assert_eq!(
        lines(&emitted),
        vec!["!Rhai Color Error: Unknown color 'Teal'. Printing uncolored.", "hello"]
    );
}

// --- Lifecycle ---

#[test]
fn lifecycle_events_in_order() {
    let plugins: Vec<Plugin> = ["a", "b"]
        .iter()
        .map(|name| {
            let manifest = MOCK_MANIFEST.replace("test-plugin", name);
            Plugin::from_dir(&plugin_dir("/t", name, Some(""), &manifest)).unwrap()
        })
        .collect();
    let names: Vec<String> =
        registration_events(&plugins).iter().map(|event| format!("{event:?}")).collect();
    assert_eq!(
        names,
        vec![
            "PluginRegistrationInit",
            "PluginRegistered(\"a\")",
            "PluginRegistered(\"b\")",
            "PluginRegistrationEnd",
        ]
    );
    let events = execution_events("merge", &vec!["x".to_string()]);
    assert_eq!(events.len(), 3);
    assert!(matches!(events[0], Event::CliCommandExecutionInit));
    assert!(
        matches!(&events[1], Event::CliCommandExecutionRun { command, args } if command == "merge" && args == &vec!["x".to_string()])
    );
    assert!(matches!(events[2], Event::CliCommandExecutionEnd));
}

#[test]
fn a_run_bears_the_event_it_was_made_for() {
    let plugin = load("bearer");
    let read = plugin.run_script(
        &Event::PluginRegistered("bearer".to_string()),
        &FileRead::Content("print(\"x\");".to_string()),
    );
    assert!(matches!(
        &read.event,
        EventData::Tagged(tag, Payload::Text(name)) if tag == "plugin-registered" && name == "bearer"
    ));
    let failed = plugin.run_script(
        &Event::CliCommandExecutionRun { command: "wip".to_string(), args: vec!["-n".to_string()] },
        &FileRead::Content("throw \"no\";".to_string()),
    );
    assert!(!failed.succeeded());
    match &failed.event {
        EventData::Tagged(tag, Payload::Record(fields)) => {
            assert_eq!(tag, "cli-command-execution-run");
            assert_eq!(fields.len(), 2);
            assert!(matches!(&fields[0], (key, FieldValue::Text(text)) if key == "command" && text == "wip"));
            assert!(matches!(&fields[1], (key, FieldValue::List(items)) if key == "args" && items == &vec!["-n".to_string()]));
        }
        other => panic!("unexpected: {other:?}"),
    }
    let unread =
        plugin.run_script(&Event::CliCommandExecutionEnd, &FileRead::Failed("gone".to_string()));
    assert!(matches!(&unread.event, EventData::Name(name) if name == "cli-command-execution-end"));
}

#[test]
fn every_run_of_a_sweep_is_for_the_event_of_the_sweep() {
    let first = load("first");
    let second = load("second");
    let invocations = vec![
        Invocation { plugin: &first, script: FileRead::Content("print(event_data);".to_string()) },
        Invocation { plugin: &second, script: FileRead::Failed("gone".to_string()) },
        Invocation { plugin: &first, script: FileRead::Content("print(event_data);".to_string()) },
    ];
    let sweep = broadcast_event(&invocations, &Event::CliCommandExecutionInit);
    assert_eq!(sweep.executions.len(), 3);
    for execution in &sweep.executions {
        assert!(
            matches!(&execution.event, EventData::Name(name) if name == "cli-command-execution-init")
        );
    }
    assert_eq!(lines(&sweep.executions[0].output), vec!["cli-command-execution-init"]);
    assert_eq!(lines(&sweep.executions[2].output), vec!["cli-command-execution-init"]);
    assert_eq!(sweep.diagnostics.len(), 1);
}

#[test]
fn collect_notes_each_failure_and_keeps_the_runs() {
    let event = Event::PluginRegistered("three".to_string());
    let runs = vec![
        Execution::from_evaluation("one", event.encode(), Vec::new(), Ok(())),
        Execution::from_evaluation("two", event.encode(), Vec::new(), Err("boom".to_string())),
        Execution::from_evaluation(
            "three",
            event.encode(),
            vec![Emission::Line("x".to_string())],
            Ok(()),
        ),
        Execution::from_evaluation("four", event.encode(), Vec::new(), Err("bang".to_string())),
    ];
    let sweep = Broadcast::collect(runs);
    assert_eq!(sweep.executions.len(), 4);
    assert_eq!(sweep.executions[2].plugin, "three");
    assert!(matches!(
        &sweep.executions[2].event,
        EventData::Tagged(tag, Payload::Text(name)) if tag == "plugin-registered" && name == "three"
    ));
    assert_eq!(lines(&sweep.executions[2].output), vec!["x"]);
    assert!(sweep.executions[0].succeeded());
    assert!(!sweep.executions[1].succeeded());
    assert_eq!(
        sweep.diagnostics,
        vec![
            "Plugin execution failure for 'two': Plugin 'two' script failed during Rhai execution.\nError: boom",
            "Plugin execution failure for 'four': Plugin 'four' script failed during Rhai execution.\nError: bang",
        ]
    );
    assert!(Broadcast::collect(Vec::new()).diagnostics.is_empty());
}

#[test]
fn script_cannot_import_a_script_file() {
    let mut file = tempfile::Builder::new().prefix("module").suffix(".rhai").tempfile().unwrap();
    file.write_all(b"fn secret() { 42 }\n").unwrap();
    file.flush().unwrap();
    let path = file.path().display().to_string();
    let module = path.trim_end_matches(".rhai");
    let script = format!("import \"{module}\" as found; print(found::secret());");
    let plugin = load("importer");
    let run = plugin.run_script(&Event::PluginRegistrationInit, &FileRead::Content(script));
    assert!(run.output.is_empty());
    match run.outcome {
        Err(ExecutionError::ScriptFailed { diagnostic, .. }) => {
            assert!(diagnostic.contains("Module not found"), "{diagnostic}")
        }
        other => panic!("unexpected: {other:?}"),
    }
}

#[test]
fn what_a_script_hands_to_debug_is_collected() {
    let plugin = load("talker");
    let script = "print(\"one\"); debug(\"two\"); debug(3); print(\"four\");";
    let run = plugin
        .run_script(&Event::PluginRegistrationInit, &FileRead::Content(script.to_string()));
    assert!(run.succeeded());
    assert_eq!(lines(&run.output), vec!["one", "?\"two\"", "?3", "four"]);
    assert!(matches!(&run.output[1], Emission::Debug(text) if text == "\"two\""));
}

#[test]
fn script_reaches_nothing_that_was_not_registered() {
    let plugin = load("narrow");
    for script in ["print_blue(\"x\");", "cprint(\"x\");", "fs::read(\"/etc/passwd\");"] {
        let execution = plugin
            .run_script(&Event::PluginRegistrationInit, &FileRead::Content(script.to_string()));
        assert!(
            matches!(execution.outcome, Err(ExecutionError::ScriptFailed { .. })),
            "{script}"
        );
    }
}

#[test]
fn script_tells_a_string_from_a_map() {
    let plugin = load("shape");
    let script = "print(event_data.type_of());";
    let bare = plugin
        .run_script(&Event::CliCommandExecutionEnd, &FileRead::Content(script.to_string()));
    assert_eq!(lines(&bare.output), vec!["string"]);
    let tagged = plugin.run_script(
        &Event::PluginRegistered("echo".to_string()),
        &FileRead::Content(script.to_string()),
    );
    assert_eq!(lines(&tagged.output), vec!["map"]);
    let script = r#"
        let run = event_data["cli-command-execution-run"];
        print(run.type_of());
        print(run.command.type_of());
        print(run.args.type_of());
        print(run.keys().len());
    "#;
    let event = Event::CliCommandExecutionRun { command: "c".to_string(), args: Vec::new() };
    let run = plugin.run_script(&event, &FileRead::Content(script.to_string()));
    assert_eq!(lines(&run.output), vec!["map", "string", "array", "2"]);
}
