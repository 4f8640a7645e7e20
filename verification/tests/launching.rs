use server_man::definition::{default_java, ServerConfig};
use server_man::guard::authorize;
use server_man::launcher::launch_recipe;
use server_man::text::{char_is_whitespace, push_decimal, split_whitespace};

fn java(extra_opts: &str) -> ServerConfig {
    ServerConfig::JavaConfig {
        name: "survival".to_string(),
        dir: "/srv/survival".to_string(),
        server_jar: "paper.jar".to_string(),
        max_mem: "4G".to_string(),
        min_mem: "512M".to_string(),
        java: default_java(),
        extra_opts: extra_opts.to_string(),
        guild_id: 42,
    }
}

#[test]
fn default_java_is_java() {
    assert_eq!(default_java(), "java");
}

#[test]
fn java_recipe_without_extra_options() {
    let recipe = launch_recipe(&java(""));
    assert_eq!(recipe.program, "java");
    assert_eq!(recipe.args, vec!["-Xmx4G", "-Xms512M", "-jar", "paper.jar", "nogui"]);
    assert_eq!(recipe.dir, "/srv/survival");
    assert!(recipe.piped_stdin);
}

#[test]
fn java_recipe_splits_extra_options() {
    let recipe = launch_recipe(&java("  -XX:+UseG1GC\t-Dfile.encoding=UTF-8 \n"));
    assert_eq!(
        recipe.args,
        vec![
            "-Xmx4G",
            "-Xms512M",
            "-XX:+UseG1GC",
            "-Dfile.encoding=UTF-8",
            "-jar",
            "paper.jar",
            "nogui"
        ]
    );
}

#[test]
fn java_recipe_with_blank_extra_options() {
    let recipe = launch_recipe(&java(" \t "));
    assert_eq!(recipe.args, vec!["-Xmx4G", "-Xms512M", "-jar", "paper.jar", "nogui"]);
}

#[test]
fn java_recipe_uses_the_configured_runtime() {
    let config = ServerConfig::JavaConfig {
        name: "modded".to_string(),
        dir: "/srv/modded".to_string(),
        server_jar: "forge.jar".to_string(),
        max_mem: "8G".to_string(),
        min_mem: "8G".to_string(),
        java: "/opt/jdk17/bin/java".to_string(),
        extra_opts: "-server".to_string(),
        guild_id: 1,
    };
    let recipe = launch_recipe(&config);
    assert_eq!(recipe.program, "/opt/jdk17/bin/java");
    assert_eq!(recipe.args, vec!["-Xmx8G", "-Xms8G", "-server", "-jar", "forge.jar", "nogui"]);
    assert_eq!(recipe.dir, "/srv/modded");
}

#[test]
fn bedrock_recipe_runs_the_executable_in_its_directory() {
    let config = ServerConfig::BedrockConfig {
        name: "bedrock".to_string(),
        dir: "/srv/bedrock".to_string(),
        exe: "bedrock_server".to_string(),
        guild_id: 7,
    };
    let recipe = launch_recipe(&config);
    assert_eq!(recipe.program, "/srv/bedrock/bedrock_server");
    assert!(recipe.args.is_empty());
    assert_eq!(recipe.dir, "/srv/bedrock");
    assert!(recipe.piped_stdin);
}

#[test]
fn config_accessors() {
    let j = java("");
    assert_eq!(j.guild_id(), 42);
    assert_eq!(j.name(), "survival");
    assert_eq!(j.dir(), "/srv/survival");
    let b = ServerConfig::BedrockConfig {
        name: "b".to_string(),
        dir: "d".to_string(),
        exe: "e".to_string(),
        guild_id: u64::MAX,
    };
    assert_eq!(b.guild_id(), u64::MAX);
    assert_eq!(b.name(), "b");
    assert_eq!(b.dir(), "d");
}

#[test]
fn only_the_owner_is_authorized() {
    let j = java("");
    assert!(authorize(&j, 42));
    assert!(!authorize(&j, 43));
    assert!(!authorize(&j, 0));
}

#[test]
fn split_whitespace_of_empty_text() {
    assert!(split_whitespace("").is_empty());
    assert!(split_whitespace("   \t\n").is_empty());
}

#[test]
fn split_whitespace_examples() {
    assert_eq!(split_whitespace("a"), vec!["a"]);
    assert_eq!(split_whitespace("a b"), vec!["a", "b"]);
    assert_eq!(split_whitespace(" a  b "), vec!["a", "b"]);
    assert_eq!(split_whitespace("one\ttwo\nthree\r\nfour"), vec!["one", "two", "three", "four"]);
    assert_eq!(split_whitespace("\u{3000}wide\u{2003}gap\u{a0}"), vec!["wide", "gap"]);
    assert_eq!(split_whitespace("zero\u{200b}width"), vec!["zero\u{200b}width"]);
    assert_eq!(split_whitespace("héllo wörld"), vec!["héllo", "wörld"]);
}

#[test]
fn split_whitespace_agrees_with_std() {
    let samples = [
        "",
        " ",
        "x",
        " x",
        "x ",
        "-Xss4M -XX:+UseParallelGC",
        "\t\ta\u{85}b\u{1680}c\u{2028}d\u{2029}e\u{202f}f\u{205f}g\u{b}h\u{c}i",
        "日本語 テキスト　全角",
        "a\u{180e}b \u{feff}c",
    ];
    for s in samples {
        let expected: Vec<String> = s.split_whitespace().map(|w| w.to_string()).collect();
        assert_eq!(split_whitespace(s), expected, "for {:?}", s);
    }
}

#[test]
fn whitespace_is_what_std_takes_for_it() {
    let mut code: u32 = 0;
    while code <= 0x10FFFF {
        if let Some(c) = char::from_u32(code) {
            assert_eq!(char_is_whitespace(c), c.is_whitespace(), "for U+{:04X}", code);
        }
        code += 1;
    }
}

#[test]
fn decimal_examples() {
    let cases: [(u64, &str); 8] = [
        (0, "0"),
        (7, "7"),
        (10, "10"),
        (99, "99"),
        (100, "100"),
        (1234567890, "1234567890"),
        (123456789012345678, "123456789012345678"),
        (u64::MAX, "18446744073709551615"),
    ];
    for (n, text) in cases {
        let mut out = String::new();
        push_decimal(&mut out, n);
        assert_eq!(out, text);
    }
}

#[test]
fn decimal_is_appended() {
    let mut out = "id=".to_string();
    push_decimal(&mut out, 305);
    assert_eq!(out, "id=305");
}
