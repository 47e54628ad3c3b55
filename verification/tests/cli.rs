use moss::cli::clawhub::{
    browse_request, download_request, search_request, skill_request, status_error, unparsable_error, HubCall,
    HubRequest,
};
use moss::cli::installer::{
    analyze_archive, archive_relative_path, final_skill_name, installer_api_key, url_name_hint, SkillSource,
};
use moss::config::{SkillConfig, SkillMarketConfig};
use moss::cli::marketplace::{
    authorization_value, download_status_error, download_url, extract_name_from_id, find_skill_match,
    resolve_query, search_query, search_status_error, skill_from_search_result, version_note, MarketplaceSkill,
    SkillSearchResult,
};
use moss::cli::parse::CliErrorKind;
use moss::cli::skill::{confirms_removal, info_target, shorten_for_display, skills_directory, trim, InfoTarget, SkillCommand};
use moss::cli::{Cli, Command};
use moss::error::ServerError;

// ---------------------------------------------------------------------------
// installer
// ---------------------------------------------------------------------------

#[test]
fn test_parse_skillsmp_source() {
    let source = SkillSource::parse("skillsmp:code-review").unwrap();
    match source {
        SkillSource::Skillsmp { name, version } => {
            assert_eq!(name, "code-review");
            assert!(version.is_none());
        },
        _ => panic!("Expected Skillsmp source"),
    }
}

#[test]
fn test_parse_skillsmp_source_with_version() {
    let source = SkillSource::parse("skillsmp:code-review@2.0.0").unwrap();
    match source {
        SkillSource::Skillsmp { name, version } => {
            assert_eq!(name, "code-review");
            assert_eq!(version, Some("2.0.0".to_string()));
        },
        _ => panic!("Expected Skillsmp source"),
    }
}

#[test]
fn test_parse_url_source() {
    let source = SkillSource::parse("https://example.com/skill.zip").unwrap();
    match source {
        SkillSource::Url(url) => {
            assert_eq!(url, "https://example.com/skill.zip");
        },
        _ => panic!("Expected Url source"),
    }
}

#[test]
fn test_parse_invalid_source() {
    let result = SkillSource::parse("invalid");
    assert!(result.is_err());
}

#[test]
fn test_display_name() {
    let source = SkillSource::Skillsmp { name: "test".to_string(), version: None };
    assert_eq!(source.display_name(), "skillsmp:test");

    let source = SkillSource::Skillsmp { name: "test".to_string(), version: Some("1.0.0".to_string()) };
    assert_eq!(source.display_name(), "skillsmp:test@1.0.0");
}

#[test]
fn invalid_source_error_message() {
    match SkillSource::parse("ftp://x") {
        Err(ServerError::Operation(m)) => {
            assert_eq!(m, "Invalid skill source: 'ftp://x'. Use 'skillsmp:name' or a URL.");
        },
        _ => panic!("expected an operation error"),
    }
}

#[test]
fn parsed_source_displays_as_written() {
    for s in ["skillsmp:a", "skillsmp:a@1.2", "skillsmp:a@b@c", "http://x/y.zip"] {
        assert_eq!(SkillSource::parse(s).unwrap().display_name(), s);
    }
}

#[test]
fn url_name_hints() {
    assert_eq!(url_name_hint("https://example.com/pkgs/my-skill.zip"), "my-skill");
    assert_eq!(url_name_hint("https://example.com/download"), "downloaded-skill");
}

#[test]
fn archive_layout_and_paths() {
    let names = vec![
        "my-skill/".to_string(),
        "my-skill/SKILL.md".to_string(),
        "my-skill/scripts/run.py".to_string(),
    ];
    let layout = analyze_archive(&names);
    assert_eq!(layout.skill_name, Some("my-skill".to_string()));
    assert_eq!(layout.root_prefix, Some("my-skill/".to_string()));
    assert_eq!(archive_relative_path("my-skill/scripts/run.py", &layout.root_prefix), Some("scripts/run.py".to_string()));
    assert_eq!(archive_relative_path("my-skill/", &layout.root_prefix), None);
    assert_eq!(final_skill_name(&layout, "hint"), "my-skill");
}

// ---------------------------------------------------------------------------
// marketplace
// ---------------------------------------------------------------------------

#[test]
fn test_extract_name_from_id_simple() {
    let id = "user-repo-code-review-skill-md";
    let name = extract_name_from_id(id);
    assert_eq!(name, "review");
}

#[test]
fn test_extract_name_from_id_complex() {
    let id = "krmcbride-cloud-plugins-essentials-skills-documentation-lookup-skill-md";
    let name = extract_name_from_id(id);
    assert!(!name.is_empty());
    assert!(!name.contains("skill-md"));
}

#[test]
fn test_extract_name_from_id_short() {
    let id = "short-id";
    let name = extract_name_from_id(id);
    assert_eq!(name, "short-id");
}

#[test]
fn extract_name_from_id_middle_segments_and_truncation() {
    assert_eq!(extract_name_from_id("owner-repo-pdf-tools-x-y"), "pdf-tools");
    assert_eq!(extract_name_from_id("owner-repo-skills-md-x-y"), "owner-repo-skills-md-x-y");
    let long = "abcdefghijklmnopqrstuvwxyz0123456789";
    assert_eq!(extract_name_from_id(long), "abcdefghijklmnopqrstuvwxyz0...");
}

fn result(id: &str, name: Option<&str>, description: Option<&str>, tags: Vec<&str>) -> SkillSearchResult {
    SkillSearchResult {
        id: id.to_string(),
        name: name.map(|s| s.to_string()),
        description: description.map(|s| s.to_string()),
        tags: tags.into_iter().map(|s| s.to_string()).collect(),
    }
}

#[test]
fn search_results_become_marketplace_skills() {
    let s = skill_from_search_result(result("user-repo-code-review-skill-md", None, None, vec![]));
    assert_eq!(s.name, "review");
    assert_eq!(s.description, "No description available");
    assert_eq!(s.download_url, Some("https://skillsmp.com/api/v1/skills/user-repo-code-review-skill-md/download".to_string()));
    assert!(s.version.is_none());

    let s = skill_from_search_result(result("x", Some("X"), None, vec!["a", "b"]));
    assert_eq!(s.name, "X");
    assert_eq!(s.description, "a, b");
    assert_eq!(download_url("x"), "https://skillsmp.com/api/v1/skills/x/download");
}

fn skill(id: &str, name: &str) -> MarketplaceSkill {
    MarketplaceSkill {
        id: id.to_string(),
        name: name.to_string(),
        description: String::new(),
        version: None,
        author: None,
        license: None,
        allowed_tools: vec![],
        download_url: None,
    }
}

#[test]
fn skill_lookup_picks_first_match() {
    let skills = vec![skill("a-b-other-skill-md", "Other"), skill("a-b-weather-skill-md", "Weather Tool")];
    let found = find_skill_match(skills, "weather").unwrap();
    assert_eq!(found.id, "a-b-weather-skill-md");

    let skills = vec![skill("x", "Code-Review")];
    assert_eq!(find_skill_match(skills, "code-review").unwrap().id, "x");

    match find_skill_match(vec![skill("x", "y")], "nothing") {
        Err(ServerError::Operation(m)) => assert_eq!(m, "Skill 'nothing' not found on skillsmp.com"),
        _ => panic!("expected not found"),
    }
}

#[test]
fn marketplace_queries_and_headers() {
    assert_eq!(resolve_query("code-review", Some("2.0.0")), "code-review 2.0.0");
    assert_eq!(resolve_query("code-review", None), "code-review");
    assert_eq!(search_query("test", Some("security")), "test category:security");
    assert_eq!(search_query("test", None), "test");
    assert_eq!(authorization_value(&Some("k".to_string())), Some("Bearer k".to_string()));
    assert_eq!(authorization_value(&None), None);
    assert_eq!(version_note(Some("1"), &Some("2".to_string())), Some("  Note: Requested version '1', but found version '2'".to_string()));
    assert_eq!(version_note(Some("1"), &Some("1".to_string())), None);
}

#[test]
fn marketplace_status_errors() {
    match search_status_error(403, "403 Forbidden", "") {
        ServerError::Operation(m) => assert!(m.starts_with("skillsmp.com requires an API key")),
        _ => panic!(),
    }
    match search_status_error(500, "500 Internal Server Error", "oops") {
        ServerError::Operation(m) => assert_eq!(m, "skillsmp.com API error (500 Internal Server Error): oops"),
        _ => panic!(),
    }
    match download_status_error(404, "404 Not Found", "none") {
        ServerError::Operation(m) => assert_eq!(m, "Failed to download skill (404 Not Found): none"),
        _ => panic!(),
    }
}

// ---------------------------------------------------------------------------
// skill subcommand helpers
// ---------------------------------------------------------------------------

#[test]
fn info_targets() {
    match info_target("skillsmp:weather") {
        InfoTarget::Remote(n) => assert_eq!(n, "weather"),
        _ => panic!(),
    }
    match info_target("weather") {
        InfoTarget::Local(n) => assert_eq!(n, "weather"),
        _ => panic!(),
    }
}

#[test]
fn listing_text_is_shortened() {
    let long = "a".repeat(60);
    assert_eq!(shorten_for_display(&long, 47), format!("{}...", "a".repeat(47)));
    assert_eq!(shorten_for_display("short", 47), "short");
}

#[test]
fn removal_confirmation_answers() {
    assert!(confirms_removal("y\n"));
    assert!(confirms_removal("  YES "));
    assert!(!confirms_removal("no"));
    assert!(!confirms_removal(""));
    assert_eq!(trim("\t a b \n"), "a b");
}

#[test]
fn default_skills_directory() {
    assert_eq!(skills_directory(&None, Some("/home/u")), "/home/u/.aries/skills");
    assert_eq!(skills_directory(&None, None), "./.aries/skills");
}

// ---------------------------------------------------------------------------
// command line
// ---------------------------------------------------------------------------

#[test]
fn test_tcl_001_skill_list_command_parsing() {
    let cli = Cli::parse_from(&["moss", "skill", "list"]);
    match cli.command {
        Some(Command::Skill(SkillCommand::List { remote, category, limit })) => {
            assert!(!remote, "Default should be local listing");
            assert!(category.is_none(), "No category filter by default");
            assert_eq!(limit, 10, "Default limit should be 10");
        },
        _ => panic!("Expected Skill List command"),
    }
}

#[test]
fn test_tcl_001_skill_list_remote() {
    let cli = Cli::parse_from(&["moss", "skill", "list", "--remote"]);
    match cli.command {
        Some(Command::Skill(SkillCommand::List { remote, .. })) => {
            assert!(remote, "Should be remote listing");
        },
        _ => panic!("Expected Skill List command"),
    }
}

#[test]
fn test_tcl_001_skill_list_with_category() {
    let cli = Cli::parse_from(&["aries", "skill", "list", "--remote", "--category", "development"]);
    match cli.command {
        Some(Command::Skill(SkillCommand::List { category, .. })) => {
            assert_eq!(category, Some("development".to_string()));
        },
        _ => panic!("Expected Skill List command"),
    }
}

#[test]
fn test_tcl_001_skill_list_with_limit() {
    let cli = Cli::parse_from(&["moss", "skill", "list", "-n", "20"]);
    match cli.command {
        Some(Command::Skill(SkillCommand::List { limit, .. })) => {
            assert_eq!(limit, 20);
        },
        _ => panic!("Expected Skill List command"),
    }
}

#[test]
fn test_tcl_002_skill_info_command_parsing() {
    let cli = Cli::parse_from(&["moss", "skill", "info", "code-review"]);
    match cli.command {
        Some(Command::Skill(SkillCommand::Info { name })) => {
            assert_eq!(name, "code-review");
        },
        _ => panic!("Expected Skill Info command"),
    }
}

#[test]
fn test_tcl_002_skill_info_with_remote_prefix() {
    let cli = Cli::parse_from(&["moss", "skill", "info", "skillsmp:weather-query"]);
    match cli.command {
        Some(Command::Skill(SkillCommand::Info { name })) => {
            assert_eq!(name, "skillsmp:weather-query");
            assert!(name.starts_with("skillsmp:"));
        },
        _ => panic!("Expected Skill Info command"),
    }
}

#[test]
fn test_tcl_002_skill_info_requires_name() {
    let result = Cli::try_parse_from(&["moss", "skill", "info"]);
    assert!(result.is_err(), "Should fail without skill name");
}

#[test]
fn test_tcl_003_skill_install_from_skillsmp() {
    let cli = Cli::parse_from(&["moss", "skill", "install", "skillsmp:code-review"]);
    match cli.command {
        Some(Command::Skill(SkillCommand::Install { source, name, dir, enable })) => {
            assert_eq!(source, "skillsmp:code-review");
            assert!(name.is_none(), "No custom name by default");
            assert!(dir.is_none(), "No custom directory by default");
            assert!(!enable, "Not enabled by default");
        },
        _ => panic!("Expected Skill Install command"),
    }
}

#[test]
fn test_tcl_003_skill_install_with_version() {
    let cli = Cli::parse_from(&["moss", "skill", "install", "skillsmp:code-review@2.0.0"]);
    match cli.command {
        Some(Command::Skill(SkillCommand::Install { source, .. })) => {
            assert_eq!(source, "skillsmp:code-review@2.0.0");
            assert!(source.contains("@"));
        },
        _ => panic!("Expected Skill Install command"),
    }
}

#[test]
fn test_tcl_003_skill_install_with_custom_dir() {
    let cli = Cli::parse_from(&["aries", "skill", "install", "skillsmp:test", "--dir", "/custom/path"]);
    match cli.command {
        Some(Command::Skill(SkillCommand::Install { dir, .. })) => {
            assert_eq!(dir, Some("/custom/path".to_string()));
        },
        _ => panic!("Expected Skill Install command"),
    }
}

#[test]
fn test_tcl_003_skill_install_with_enable() {
    let cli = Cli::parse_from(&["moss", "skill", "install", "skillsmp:test", "--enable"]);
    match cli.command {
        Some(Command::Skill(SkillCommand::Install { enable, .. })) => {
            assert!(enable, "Should be enabled");
        },
        _ => panic!("Expected Skill Install command"),
    }
}

#[test]
fn test_tcl_003_skill_install_from_github() {
    let cli = Cli::parse_from(&["moss", "skill", "install", "github:user/repo"]);
    match cli.command {
        Some(Command::Skill(SkillCommand::Install { source, .. })) => {
            assert_eq!(source, "github:user/repo");
            assert!(source.starts_with("github:"));
        },
        _ => panic!("Expected Skill Install command"),
    }
}

#[test]
fn test_tcl_004_skill_uninstall_command_parsing() {
    let cli = Cli::parse_from(&["moss", "skill", "uninstall", "old-skill"]);
    match cli.command {
        Some(Command::Skill(SkillCommand::Uninstall { name, yes })) => {
            assert_eq!(name, "old-skill");
            assert!(!yes, "Should require confirmation by default");
        },
        _ => panic!("Expected Skill Uninstall command"),
    }
}

#[test]
fn test_tcl_004_skill_uninstall_with_yes() {
    let cli = Cli::parse_from(&["moss", "skill", "uninstall", "old-skill", "--yes"]);
    match cli.command {
        Some(Command::Skill(SkillCommand::Uninstall { yes, .. })) => {
            assert!(yes, "Should skip confirmation");
        },
        _ => panic!("Expected Skill Uninstall command"),
    }
}

#[test]
fn test_tcl_004_skill_uninstall_short_flag() {
    let cli = Cli::parse_from(&["moss", "skill", "uninstall", "old-skill", "-y"]);
    match cli.command {
        Some(Command::Skill(SkillCommand::Uninstall { yes, .. })) => {
            assert!(yes, "Should skip confirmation with -y");
        },
        _ => panic!("Expected Skill Uninstall command"),
    }
}

#[test]
fn test_tcl_004_skill_uninstall_requires_name() {
    let result = Cli::try_parse_from(&["moss", "skill", "uninstall"]);
    assert!(result.is_err(), "Should fail without skill name");
}

#[test]
fn test_skill_search_command() {
    let cli = Cli::parse_from(&["moss", "skill", "search", "code review"]);
    match cli.command {
        Some(Command::Skill(SkillCommand::Search { query, category, limit })) => {
            assert_eq!(query, "code review");
            assert!(category.is_none());
            assert_eq!(limit, 10);
        },
        _ => panic!("Expected Skill Search command"),
    }
}

#[test]
fn test_skill_search_with_category() {
    let cli = Cli::parse_from(&["moss", "skill", "search", "test", "--category", "security"]);
    match cli.command {
        Some(Command::Skill(SkillCommand::Search { category, .. })) => {
            assert_eq!(category, Some("security".to_string()));
        },
        _ => panic!("Expected Skill Search command"),
    }
}

#[test]
fn test_skill_update_single() {
    let cli = Cli::parse_from(&["moss", "skill", "update", "my-skill"]);
    match cli.command {
        Some(Command::Skill(SkillCommand::Update { name, all })) => {
            assert_eq!(name, Some("my-skill".to_string()));
            assert!(!all);
        },
        _ => panic!("Expected Skill Update command"),
    }
}

#[test]
fn test_skill_update_all() {
    let cli = Cli::parse_from(&["moss", "skill", "update", "--all"]);
    match cli.command {
        Some(Command::Skill(SkillCommand::Update { name, all })) => {
            assert!(name.is_none());
            assert!(all);
        },
        _ => panic!("Expected Skill Update command"),
    }
}

#[test]
fn test_skill_outdated_command() {
    let cli = Cli::parse_from(&["moss", "skill", "outdated"]);
    match cli.command {
        Some(Command::Skill(SkillCommand::Outdated)) => {},
        _ => panic!("Expected Skill Outdated command"),
    }
}

#[test]
fn test_global_config_option() {
    let cli = Cli::parse_from(&["moss", "--config", "/path/to/config.toml", "skill", "list"]);
    assert_eq!(cli.config, "/path/to/config.toml");
}

#[test]
fn test_default_config_path() {
    let cli = Cli::parse_from(&["moss", "skill", "list"]);
    assert_eq!(cli.config, "config.toml");
}

#[test]
fn test_server_mode_default() {
    let cli = Cli::parse_from(&["moss"]);
    assert!(cli.command.is_none());
    assert!(!cli.check_health);
    assert_eq!(cli.check_health_interval, 60);
    assert_eq!(cli.log_destination, "stdout");
}

#[test]
fn test_server_mode_with_health_check() {
    let cli = Cli::parse_from(&["moss", "--check-health", "--check-health-interval", "30"]);
    assert!(cli.command.is_none());
    assert!(cli.check_health);
    assert_eq!(cli.check_health_interval, 30);
}

#[test]
fn test_invalid_subcommand() {
    let result = Cli::try_parse_from(&["moss", "invalid"]);
    assert!(result.is_err());
}

#[test]
fn test_missing_required_arg() {
    let result = Cli::try_parse_from(&["moss", "skill", "install"]);
    assert!(result.is_err());
}

#[test]
fn test_invalid_limit_value() {
    let result = Cli::try_parse_from(&["moss", "skill", "list", "-n", "abc"]);
    assert!(result.is_err());
}

fn kind(args: &[&str]) -> CliErrorKind {
    Cli::try_parse_from(args).err().expect("expected an error").kind
}

#[test]
fn command_line_error_kinds() {
    assert_eq!(kind(&["moss", "invalid"]), CliErrorKind::InvalidSubcommand);
    assert_eq!(kind(&["moss", "skill"]), CliErrorKind::MissingSubcommand);
    assert_eq!(kind(&["moss", "skill", "install"]), CliErrorKind::MissingRequired);
    assert_eq!(kind(&["moss", "skill", "list", "-n", "abc"]), CliErrorKind::InvalidValue);
    assert_eq!(kind(&["moss", "skill", "list", "-n"]), CliErrorKind::MissingValue);
    assert_eq!(kind(&["moss", "skill", "list", "--remote", "--remote"]), CliErrorKind::ArgumentConflict);
    assert_eq!(kind(&["moss", "skill", "list", "--remote=yes"]), CliErrorKind::UnexpectedValue);
    assert_eq!(kind(&["moss", "skill", "list", "--bogus"]), CliErrorKind::UnknownArgument);
    assert_eq!(kind(&["moss", "--help"]), CliErrorKind::DisplayHelp);
    assert_eq!(kind(&["moss", "-V"]), CliErrorKind::DisplayVersion);
    assert_eq!(kind(&["moss", "--config", ""]), CliErrorKind::InvalidValue);
}

#[test]
fn command_line_value_forms() {
    let cli = Cli::parse_from(&["moss", "skill", "list", "--limit=+7", "-rc", "dev"]);
    match cli.command {
        Some(Command::Skill(SkillCommand::List { remote, category, limit })) => {
            assert!(remote);
            assert_eq!(category, Some("dev".to_string()));
            assert_eq!(limit, 7);
        },
        _ => panic!("Expected Skill List command"),
    }
    let cli = Cli::parse_from(&["moss", "skill", "install", "-ed=/x", "src"]);
    match cli.command {
        Some(Command::Skill(SkillCommand::Install { source, dir, enable, .. })) => {
            assert_eq!(source, "src");
            assert_eq!(dir, Some("/x".to_string()));
            assert!(enable);
        },
        _ => panic!("Expected Skill Install command"),
    }
    let cli = Cli::parse_from(&["moss", "skill", "info", "--", "-odd-name"]);
    match cli.command {
        Some(Command::Skill(SkillCommand::Info { name })) => assert_eq!(name, "-odd-name"),
        _ => panic!("Expected Skill Info command"),
    }
}

#[test]
fn log_file_is_required_for_file_logging() {
    let cli = Cli::parse_from(&["moss", "--log-destination", "file"]);
    match cli.check_log_options() {
        Err(ServerError::Operation(m)) => assert_eq!(m, "Missing log file path"),
        _ => panic!("expected an error"),
    }
    let cli = Cli::parse_from(&["moss", "--log-destination", "both", "--log-file", "/tmp/moss.log"]);
    assert!(cli.check_log_options().is_ok());
    assert!(Cli::parse_from(&["moss"]).check_log_options().is_ok());
}

#[test]
fn marketplace_key_prefers_the_configured_one() {
    let env_key = Some("from-env".to_string());
    assert_eq!(installer_api_key(None, env_key.clone()), env_key);
    let mut config = SkillConfig::default();
    assert_eq!(installer_api_key(Some(&config), env_key.clone()), env_key);
    let mut market = SkillMarketConfig::default();
    config.market = Some(market.clone());
    assert_eq!(installer_api_key(Some(&config), env_key.clone()), env_key);
    market.api_key = Some("configured".to_string());
    config.market = Some(market);
    assert_eq!(installer_api_key(Some(&config), env_key), Some("configured".to_string()));
    assert_eq!(installer_api_key(None, None), None);
}

// ---------------------------------------------------------------------------
// ClawHub
// ---------------------------------------------------------------------------

fn parts(r: &HubRequest) -> (String, Vec<(String, String)>) {
    (r.url.clone(), r.query.clone())
}

fn qp(v: &[(&str, &str)]) -> Vec<(String, String)> {
    v.iter().map(|(a, b)| (a.to_string(), b.to_string())).collect()
}

#[test]
fn clawhub_requests() {
    assert_eq!(
        parts(&search_request("web research", 20)),
        ("https://clawhub.ai/api/v1/search".to_string(), qp(&[("q", "web research"), ("limit", "20")]))
    );
    assert_eq!(
        parts(&browse_request(10, Some("abc"), None)),
        ("https://clawhub.ai/api/v1/skills".to_string(), qp(&[("limit", "10"), ("cursor", "abc")]))
    );
    assert_eq!(
        parts(&browse_request(5, None, Some("stars"))),
        ("https://clawhub.ai/api/v1/skills".to_string(), qp(&[("limit", "5"), ("sort", "stars")]))
    );
    assert_eq!(parts(&skill_request("web-researcher")), ("https://clawhub.ai/api/v1/skills/web-researcher".to_string(), vec![]));
    assert_eq!(
        parts(&download_request("web-researcher", Some("1.2.0"))),
        ("https://clawhub.ai/api/v1/download".to_string(), qp(&[("slug", "web-researcher"), ("version", "1.2.0")]))
    );
}

fn op_text(e: ServerError) -> String {
    match e {
        ServerError::Operation(m) => m,
        _ => panic!("expected an operation error"),
    }
}

#[test]
fn clawhub_status_errors() {
    assert_eq!(op_text(status_error(HubCall::Skill, "x", 404, "404 Not Found", "")), "Skill 'x' not found on ClawHub");
    assert_eq!(
        op_text(status_error(HubCall::Skill, "x", 500, "500 Internal Server Error", "boom")),
        "ClawHub API error (500 Internal Server Error): boom"
    );
    assert_eq!(
        op_text(status_error(HubCall::Search, "", 404, "404 Not Found", "no")),
        "ClawHub search API error (404 Not Found): no"
    );
    assert_eq!(
        op_text(status_error(HubCall::Download, "x", 403, "403 Forbidden", "")),
        "ClawHub download error (403 Forbidden): "
    );
}

#[test]
fn clawhub_unparsable_reply_is_cut_at_200_bytes() {
    let long = "a".repeat(250);
    let m = op_text(unparsable_error(false, &long));
    assert_eq!(m, format!("Failed to parse ClawHub search response: {}", "a".repeat(200)));
    assert_eq!(op_text(unparsable_error(true, "<html>")), "Failed to parse ClawHub browse response: <html>");
}

// ---------------------------------------------------------------------------
// packages
// ---------------------------------------------------------------------------

fn zip_of(entries: &[(&str, &[u8])]) -> Vec<u8> {
    let mut buf = std::io::Cursor::new(Vec::new());
    {
        let mut w = zip::ZipWriter::new(&mut buf);
        let opts = zip::write::SimpleFileOptions::default();
        for (name, data) in entries {
            if name.ends_with('/') {
                w.add_directory(name.trim_end_matches('/'), opts).unwrap();
            } else {
                w.start_file(*name, opts).unwrap();
                std::io::Write::write_all(&mut w, data).unwrap();
            }
        }
        w.finish().unwrap();
    }
    buf.into_inner()
}

#[test]
fn package_plan_strips_the_root_and_names_the_skill() {
    let data = zip_of(&[
        ("pack/", b""),
        ("pack/web-research/SKILL.md", b"# skill"),
        ("pack/web-research/run.py", b"print(1)"),
    ]);
    let plan = moss::cli::package::plan_extraction(&data, "hint").ok().unwrap();
    assert_eq!(plan.skill_name, "web-research");
    let files: Vec<(String, bool, Vec<u8>)> =
        plan.files.iter().map(|f| (f.relative_path.clone(), f.is_dir, f.data.clone())).collect();
    assert_eq!(
        files,
        vec![
            ("web-research/SKILL.md".to_string(), false, b"# skill".to_vec()),
            ("web-research/run.py".to_string(), false, b"print(1)".to_vec()),
        ]
    );
}

#[test]
fn package_without_skill_md_takes_the_hint() {
    let data = zip_of(&[("a.txt", b"x")]);
    let plan = moss::cli::package::plan_extraction(&data, "downloaded-skill").ok().unwrap();
    assert_eq!(plan.skill_name, "downloaded-skill");
}

#[test]
fn package_that_is_not_a_zip_is_refused() {
    match moss::cli::package::plan_extraction(b"not a zip", "x") {
        Err(ServerError::Operation(m)) => assert!(m.starts_with("Invalid skill package (not a valid zip): ")),
        _ => panic!("expected an error"),
    }
}

#[test]
fn configured_skill_directory_expands_a_leading_tilde() {
    let mut config = SkillConfig::default();
    config.directories = vec!["/srv/skills".to_string()];
    assert_eq!(config.directory(), "/srv/skills");
    config.directories = vec!["~/skills".to_string()];
    let expanded = config.directory();
    assert!(expanded.ends_with("/skills"));
    assert_eq!(skills_directory(&Some(config), Some("/ignored")), expanded);
    let empty = SkillConfig { directories: vec![], ..SkillConfig::default() };
    assert_eq!(empty.directory(), "~/.moss/skills");
    assert!(skills_directory(&Some(empty), None).ends_with("/.moss/skills"));
}

#[test]
fn market_cache_dir_is_expanded() {
    let mut market = SkillMarketConfig::default();
    assert_eq!(market.expanded_cache_dir(), None);
    market.cache_dir = Some("/var/cache/skills".to_string());
    assert_eq!(market.expanded_cache_dir(), Some("/var/cache/skills".to_string()));
    market.cache_dir = Some("~/cache".to_string());
    assert!(market.expanded_cache_dir().unwrap().ends_with("/cache"));
}
