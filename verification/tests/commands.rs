use vibe_studio::commands::{
    download_failure, progress_percent, project_name, project_names, ProjectData,
    PROJECTS_DIRECTORY,
};

#[test]
fn project_is_written_as_pretty_json() {
    let project = ProjectData::new("demo".to_string(), "print(\"x\")\n".to_string(), "[]".to_string());
    assert_eq!(
        project.to_json_pretty(),
        "{\n  \"name\": \"demo\",\n  \"code\": \"print(\\\"x\\\")\\n\",\n  \"chat_history\": \"[]\"\n}"
    );
    let parsed: serde_json::Value = serde_json::from_str(&project.to_json_pretty()).unwrap();
    assert_eq!(parsed["name"], "demo");
    assert_eq!(parsed["code"], "print(\"x\")\n");
    assert_eq!(parsed["chat_history"], "[]");
}

#[test]
fn project_file_name_ends_in_json() {
    let project = ProjectData::new("my app".to_string(), String::new(), String::new());
    assert_eq!(project.project_file_name(), "my app.json");
    assert_eq!(PROJECTS_DIRECTORY, "AntigravityProjects");
}

#[test]
fn project_name_strips_every_ending() {
    assert_eq!(project_name("demo.json").as_deref(), Some("demo"));
    assert_eq!(project_name("a.json.json").as_deref(), Some("a"));
    assert_eq!(project_name(".json").as_deref(), Some(""));
    assert_eq!(project_name("caf\u{e9}.json").as_deref(), Some("caf\u{e9}"));
    assert_eq!(project_name("x.json.txt.json").as_deref(), Some("x.json.txt"));
    assert_eq!(project_name("demo.txt"), None);
    assert_eq!(project_name("demo.JSON"), None);
    assert_eq!(project_name("json"), None);
    assert_eq!(project_name(""), None);
}

#[test]
fn project_names_keep_their_order() {
    let files: Vec<String> =
        ["b.json", "notes.txt", "a.json", ".hidden", "c.json.json"].iter().map(|s| s.to_string()).collect();
    assert_eq!(project_names(&files), vec!["b", "a", "c"]);
    assert!(project_names(&Vec::new()).is_empty());
}

#[test]
fn progress_is_the_number_before_the_first_percent() {
    assert_eq!(progress_percent("pulling 6a0746a1ec1a...  45% |####    | 1.2 GB/4.7 GB"), 45);
    assert_eq!(progress_percent("100%"), 100);
    assert_eq!(progress_percent("done 7 % more"), 7);
    assert_eq!(progress_percent("a 12% b 99%"), 12);
    assert_eq!(progress_percent("+5%"), 5);
    assert_eq!(progress_percent("x\u{a0}33%"), 33);
}

#[test]
fn progress_is_zero_without_a_number() {
    assert_eq!(progress_percent("verifying sha256 digest"), 0);
    assert_eq!(progress_percent(""), 0);
    assert_eq!(progress_percent("%"), 0);
    assert_eq!(progress_percent("   %"), 0);
    assert_eq!(progress_percent("about4.5%"), 0);
    assert_eq!(progress_percent("-3%"), 0);
    assert_eq!(progress_percent("+%"), 0);
    assert_eq!(progress_percent("99999999999999999999999%"), 0);
    assert_eq!(progress_percent("18446744073709551615%"), u64::MAX);
    assert_eq!(progress_percent("18446744073709551616%"), 0);
}

#[test]
fn download_failure_names_the_status() {
    assert_eq!(download_failure("exit status: 1"), "Ollama exited with status: exit status: 1");
}
