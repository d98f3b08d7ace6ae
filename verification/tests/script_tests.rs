use godot_checker::header::HeaderError;
use godot_checker::problems::{BuildError, BuildErrorKind, ScriptProblem};
use godot_checker::script::{Script, ScriptKind};
use godot_checker::script_rules::{
    check_behaviour_script_isolated, check_reference_script_isolated, check_script_given,
    check_script_isolated, check_value_script_isolated, has_untyped_variable,
    holds_exports_only, name_is_upper_camel_case, split_on_any, split_on_any_bounds,
};
use std::path::PathBuf;

fn script(file: &str, contents: &str) -> Script {
    Script::new(PathBuf::from(file), format!("res://{}", file), contents.to_string()).unwrap()
}

fn failure(file: &str, contents: &str) -> BuildError {
    Script::new(PathBuf::from(file), format!("res://{}", file), contents.to_string()).unwrap_err()
}

fn chars(s: &str) -> Vec<char> {
    s.chars().collect()
}

#[test]
fn kind_follows_the_first_two_characters() {
    assert_eq!(ScriptKind::of_file_name("v_Stats.gd"), ScriptKind::Value);
    assert_eq!(ScriptKind::of_file_name("r_Config.gd"), ScriptKind::Reference);
    assert_eq!(ScriptKind::of_file_name("PlayerController.gd"), ScriptKind::Behaviour);
    assert_eq!(ScriptKind::of_file_name("v_"), ScriptKind::Value);
    assert_eq!(ScriptKind::of_file_name("r_"), ScriptKind::Reference);
    assert_eq!(ScriptKind::of_file_name("v"), ScriptKind::Behaviour);
    assert_eq!(ScriptKind::of_file_name(""), ScriptKind::Behaviour);
    assert_eq!(ScriptKind::of_file_name("V_Stats.gd"), ScriptKind::Behaviour);
    assert_eq!(ScriptKind::of_file_name("rx_Config.gd"), ScriptKind::Behaviour);
    assert_eq!(ScriptKind::of_file_name("_v_Stats.gd"), ScriptKind::Behaviour);
    assert_eq!(ScriptKind::of_file_name("é_Stats.gd"), ScriptKind::Behaviour);
    assert_eq!(ScriptKind::of_file_name("vé"), ScriptKind::Behaviour);
}

#[test]
fn kind_is_the_same_for_names_that_begin_alike() {
    for (a, b) in [("v_A.gd", "v_Other.gd"), ("r_A.gd", "r_"), ("Ab.gd", "AbCd.gd")] {
        assert_eq!(ScriptKind::of_file_name(a), ScriptKind::of_file_name(b));
    }
}

#[test]
fn new_fills_every_field() {
    let s = Script::new(
        PathBuf::from("game/actors/PlayerController.gd"),
        "res://actors/PlayerController.gd".to_string(),
        "class_name PlayerController\nextends Node\n".to_string(),
    )
    .unwrap();
    assert_eq!(s.full_name, "PlayerController.gd");
    assert_eq!(s.name, "PlayerController");
    assert_eq!(s.path, PathBuf::from("game/actors/PlayerController.gd"));
    assert_eq!(s.gd_path, "res://actors/PlayerController.gd");
    assert_eq!(s.contents, "class_name PlayerController\nextends Node\n");
    assert_eq!(s.kind, ScriptKind::Behaviour);
    assert_eq!(s.class_name, Some("PlayerController".to_string()));
    assert_eq!(s.extends, Some("Node".to_string()));
}

#[test]
fn name_of_value_and_reference_scripts_drops_the_prefix() {
    assert_eq!(script("v_Stats.gd", "").name, "Stats");
    assert_eq!(script("r_Config.gd", "").name, "Config");
    assert_eq!(script("v_.gd", "").name, "");
    assert_eq!(script("Stats.gd", "").name, "Stats");
    assert_eq!(script("v_a.b.gd", "").name, "a.b");
}

#[test]
fn headers_are_found_anywhere_in_the_text() {
    let s = script("Foo.gd", "# a comment\n\nvar x: int = 1\n  extends Node\r\n\tclass_name Foo\n");
    assert_eq!(s.class_name, Some("Foo".to_string()));
    assert_eq!(s.extends, Some("Node".to_string()));
    let s = script("Foo.gd", "class_name Foo extends Node2D");
    assert_eq!(s.class_name, Some("Foo".to_string()));
    assert_eq!(s.extends, Some("Node2D".to_string()));
    let s = script("Foo.gd", "func f():\n\tpass\n");
    assert_eq!(s.class_name, None);
    assert_eq!(s.extends, None);
}

#[test]
fn building_twice_gives_the_same_script() {
    let contents = "class_name Foo\nextends Node\n@export var a: int = 1\n";
    let a = script("v_Foo.gd", contents);
    let b = script("v_Foo.gd", contents);
    assert_eq!(a.full_name, b.full_name);
    assert_eq!(a.name, b.name);
    assert_eq!(a.contents, b.contents);
    assert_eq!(a.path, b.path);
    assert_eq!(a.gd_path, b.gd_path);
    assert_eq!(a.kind, b.kind);
    assert_eq!(a.class_name, b.class_name);
    assert_eq!(a.extends, b.extends);
    assert_eq!(format!("{:?}", a), format!("{:?}", b));
}

#[test]
fn a_path_without_file_name_is_a_failure() {
    let e = Script::new(PathBuf::from(".."), String::new(), String::new()).unwrap_err();
    assert_eq!(e.kind, BuildErrorKind::NoFileName);
    assert_eq!(e.file, "..");
    assert_eq!(e.detail, "");
    assert_eq!(e.message(), "no file name for file ..");
    let e = Script::new(PathBuf::from("a/b/.."), String::new(), "extends A B".to_string())
        .unwrap_err();
    assert_eq!(e.kind, BuildErrorKind::NoFileName);
    assert_eq!(e.file, "a/b/..");
}

#[test]
fn a_path_with_a_file_name_gives_a_script_whenever_the_lines_are_in_order() {
    for path in ["a", ".hidden", "dir/x.y.z", "v_.gd", "r_a", "/abs/Foo.gd", "./Foo.gd", "é"] {
        let s = Script::new(PathBuf::from(path), String::new(), "extends Node\n".to_string());
        assert!(s.is_ok(), "{:?}", path);
    }
}

#[test]
fn failures_of_the_build_carry_no_detail() {
    let e = failure("Foo.gd", "extends A\nextends B\n");
    assert_eq!(e.detail, "");
    let e = BuildError::new("Foo.gd".to_string(), BuildErrorKind::NoMasterNode);
    assert_eq!(e.file, "Foo.gd");
    assert_eq!(e.kind, BuildErrorKind::NoMasterNode);
    assert_eq!(e.detail, "");
}

#[test]
fn an_unreadable_file_is_reported_with_its_reason() {
    let e = BuildError {
        file: "levels/Main.tscn".to_string(),
        kind: BuildErrorKind::Unreadable,
        detail: "permission denied".to_string(),
    };
    assert_eq!(e.message(), "levels/Main.tscn could not be read: permission denied");
}

#[test]
fn a_stem_shorter_than_the_prefix_is_a_failure() {
    let e = Script::assemble(
        PathBuf::from("v_.gd"),
        "v_.gd".to_string(),
        "v".to_string(),
        String::new(),
        String::new(),
    )
    .unwrap_err();
    assert_eq!(e.kind, BuildErrorKind::StemTooShort);
    assert_eq!(e.file, "v_.gd");
    assert_eq!(e.message(), "v_.gd name is shorter than its prefix");
    // A behaviour script keeps any stem.
    let s = Script::assemble(
        PathBuf::from("a"),
        "a".to_string(),
        "a".to_string(),
        String::new(),
        String::new(),
    )
    .unwrap();
    assert_eq!(s.name, "a");
}

#[test]
fn assemble_takes_name_and_stem_as_given() {
    let s = Script::assemble(
        PathBuf::from("somewhere"),
        "r_Config.gd".to_string(),
        "r_Config".to_string(),
        "res://r_Config.gd".to_string(),
        "extends Node".to_string(),
    )
    .unwrap();
    assert_eq!(s.kind, ScriptKind::Reference);
    assert_eq!(s.name, "Config");
    assert_eq!(s.full_name, "r_Config.gd");
    assert_eq!(s.extends, Some("Node".to_string()));
    assert_eq!(s.class_name, None);
}

#[test]
fn a_malformed_header_is_a_failure() {
    let e = failure("Foo.gd", "extends Node\nclass_name Foo Bar\n");
    assert_eq!(e.kind, BuildErrorKind::Header(HeaderError::WordAfterClassName));
    assert_eq!(e.file, "Foo.gd");
    assert_eq!(
        e.message(),
        "Foo.gd there was another word after the class_name but no extends"
    );
    let e = failure("Foo.gd", "extends Node Bar\n");
    assert_eq!(e.kind, BuildErrorKind::Header(HeaderError::WordAfterExtends));
    assert_eq!(e.message(), "Foo.gd there was another word after the extends");
}

#[test]
fn a_second_class_name_is_a_failure() {
    let e = failure("Foo.gd", "class_name Foo\nextends Node\nclass_name Foo\n");
    assert_eq!(e.kind, BuildErrorKind::MultipleClassNames);
    assert_eq!(e.message(), "Foo.gd multiple class_names");
    let e = failure("Foo.gd", "class_name Foo extends Node\nclass_name Bar extends Node\n");
    assert_eq!(e.kind, BuildErrorKind::MultipleClassNames);
}

#[test]
fn a_second_extends_is_a_failure() {
    let e = failure("Foo.gd", "extends Node\nextends Node\n");
    assert_eq!(e.kind, BuildErrorKind::MultipleExtends);
    assert_eq!(e.message(), "Foo.gd multiple extends");
    let e = failure("Foo.gd", "extends Node\nclass_name Foo extends Node\n");
    assert_eq!(e.kind, BuildErrorKind::MultipleExtends);
}

#[test]
fn the_first_failure_is_reported() {
    let e = failure("Foo.gd", "extends A\nextends B\nclass_name Foo Bar\n");
    assert_eq!(e.kind, BuildErrorKind::MultipleExtends);
    let e = failure("Foo.gd", "extends A\nclass_name Foo Bar\nextends B\n");
    assert_eq!(e.kind, BuildErrorKind::Header(HeaderError::WordAfterClassName));
}

#[test]
fn messages_of_the_remaining_failures() {
    let text = |kind: BuildErrorKind| BuildError::new("x".to_string(), kind).message();
    assert_eq!(text(BuildErrorKind::NoFileStem), "no file stem for file x");
    assert_eq!(
        text(BuildErrorKind::UnterminatedScriptPath),
        "x no ending \" on script ext_resource path"
    );
    assert_eq!(text(BuildErrorKind::NoMasterType), "x no type on master node");
    assert_eq!(
        text(BuildErrorKind::UnterminatedMasterType),
        "x can't find end of type on master node"
    );
    assert_eq!(text(BuildErrorKind::NoMasterNode), "x no master node???");
}

#[test]
fn example_behaviour_script_passes() {
    let s = script("PlayerController.gd", "class_name PlayerController\nextends Node\n");
    assert_eq!(s.kind, ScriptKind::Behaviour);
    assert_eq!(s.check_name_is_upper_camel_case(), Ok(()));
    assert_eq!(s.check_matching_script_name_and_class_name(), Ok(()));
    assert_eq!(s.check_extends_node(), Ok(()));
    assert_eq!(check_behaviour_script_isolated(&s), Ok(()));
    assert_eq!(check_script_isolated(&s), Ok(()));
}

#[test]
fn example_reference_script_passes() {
    let s = script("r_Config.gd", "extends Node\n@export var max_speed: float = 5.0\n");
    assert_eq!(s.kind, ScriptKind::Reference);
    assert_eq!(check_reference_script_isolated(&s), Ok(()));
    assert_eq!(check_script_isolated(&s), Ok(()));
}

#[test]
fn example_reference_script_with_untyped_variable() {
    // Before any `:` the `=` is seen first.
    let s = script("r_Config.gd", "extends Node\nvar score = 0\n@export var max_speed: float = 5.0\n");
    assert_eq!(check_script_isolated(&s), Err(ScriptProblem::UntypedVariable));
    // After an indented keyword a new part begins.
    let s = script(
        "r_Config.gd",
        "extends Node\n@export var max_speed: float = 5.0\n\tvar score = 0\n",
    );
    assert_eq!(check_script_isolated(&s), Err(ScriptProblem::UntypedVariable));
    let s = script(
        "r_Config.gd",
        "extends Node\n@export var max_speed: float = 5.0\n var score = 0\n",
    );
    assert_eq!(check_script_isolated(&s), Err(ScriptProblem::UntypedVariable));
}

#[test]
fn a_keyword_at_the_start_of_a_line_begins_no_new_part() {
    // The part that holds `var score = 0` begins at `max_speed:`, so its `:` comes first;
    // the line is then reported as a statement that is no exported variable.
    let s = script("r_Config.gd", "extends Node\n@export var max_speed: float = 5.0\nvar score = 0\n");
    assert!(!has_untyped_variable(&chars(&s.contents)));
    assert_eq!(check_script_isolated(&s), Err(ScriptProblem::NonExportStatement));
}

#[test]
fn untyped_variables_are_found_part_by_part() {
    assert!(!has_untyped_variable(&chars("")));
    assert!(!has_untyped_variable(&chars("var a: int = 1")));
    assert!(has_untyped_variable(&chars("\tvar a = 1")));
    assert!(has_untyped_variable(&chars("x = 1")));
    assert!(!has_untyped_variable(&chars("x: int = 1\n\tvar y: int = 2\n var z := 3")));
    assert!(has_untyped_variable(&chars("x: int = 1\n\tvar y: int = 2\n var z = 3")));
    assert!(has_untyped_variable(&chars("x: int\n\tvar y = {a: 1}")));
    // The scan of a part ends at its first `:`.
    assert!(!has_untyped_variable(&chars(" var y: Dictionary = {a = 1}")));
    // Only a space or a tab before the keyword and a space after it split.
    assert!(!has_untyped_variable(&chars("a: int\nvar b = 2")));
    assert!(!has_untyped_variable(&chars("a: int\n var\tb = 2")));
}

#[test]
fn name_rule() {
    let s = script("PlayerController.gd", "");
    assert_eq!(s.check_name_is_upper_camel_case(), Ok(()));
    let s = script("playerController.gd", "");
    assert_eq!(s.check_name_is_upper_camel_case(), Err(ScriptProblem::NameNotUpperCamelCase));
    let s = script("Player_Controller.gd", "");
    assert_eq!(s.check_name_is_upper_camel_case(), Err(ScriptProblem::NameNotUpperCamelCase));
    let s = script("v_Stats.gd", "");
    assert_eq!(s.check_name_is_upper_camel_case(), Ok(()));
    let s = script("v_stats.gd", "");
    assert_eq!(s.check_name_is_upper_camel_case(), Err(ScriptProblem::NameNotUpperCamelCase));
    let s = script("v_.gd", "");
    assert_eq!(s.check_name_is_upper_camel_case(), Ok(()));
    let s = script("2Fast.gd", "");
    assert_eq!(s.check_name_is_upper_camel_case(), Ok(()));
    let s = script("Élan.gd", "");
    assert_eq!(s.check_name_is_upper_camel_case(), Ok(()));
    let s = script("élan.gd", "");
    assert_eq!(s.check_name_is_upper_camel_case(), Err(ScriptProblem::NameNotUpperCamelCase));
    let s = script("ßtrasse.gd", "");
    assert_eq!(s.check_name_is_upper_camel_case(), Err(ScriptProblem::NameNotUpperCamelCase));
}

#[test]
fn name_rule_given_the_uppercase_form() {
    assert!(name_is_upper_camel_case(&chars("Player"), &['P']));
    assert!(!name_is_upper_camel_case(&chars("player"), &['P']));
    assert!(!name_is_upper_camel_case(&chars("Player"), &['P', 'P']));
    assert!(!name_is_upper_camel_case(&chars("Player"), &[]));
    assert!(!name_is_upper_camel_case(&chars("Pla_yer"), &['P']));
    assert!(!name_is_upper_camel_case(&chars("Player_"), &['P']));
    assert!(name_is_upper_camel_case(&[], &[]));
    assert!(name_is_upper_camel_case(&[], &['X']));
}

#[test]
fn extends_rule() {
    let s = script("Foo.gd", "extends Node\n");
    assert_eq!(s.check_extends_node(), Ok(()));
    let s = script("Foo.gd", "extends Node2D\n");
    assert_eq!(s.check_extends_node(), Err(ScriptProblem::ExtendsOther));
    let s = script("Foo.gd", "extends node\n");
    assert_eq!(s.check_extends_node(), Err(ScriptProblem::ExtendsOther));
    let s = script("Foo.gd", "extends\n");
    assert_eq!(s.check_extends_node(), Err(ScriptProblem::ExtendsOther));
    let s = script("Foo.gd", "class_name Foo\n");
    assert_eq!(s.check_extends_node(), Err(ScriptProblem::ExtendsNothing));
}

#[test]
fn class_name_rule() {
    let s = script("Foo.gd", "class_name Foo\n");
    assert_eq!(s.check_matching_script_name_and_class_name(), Ok(()));
    let s = script("Foo.gd", "class_name Bar\n");
    assert_eq!(
        s.check_matching_script_name_and_class_name(),
        Err(ScriptProblem::ClassNameMismatch)
    );
    let s = script("Foo.gd", "extends Node\n");
    assert_eq!(s.check_matching_script_name_and_class_name(), Err(ScriptProblem::NoClassName));
    let s = script("v_Foo.gd", "class_name Foo\n");
    assert_eq!(s.check_matching_script_name_and_class_name(), Ok(()));
    let s = script("v_Foo.gd", "class_name v_Foo\n");
    assert_eq!(
        s.check_matching_script_name_and_class_name(),
        Err(ScriptProblem::ClassNameMismatch)
    );
}

#[test]
fn body_rule() {
    let ok = "class_name Foo\nextends Node\n\n# a comment\n   \n\t@export var a: int = 1\n@export var b: String\n";
    let s = script("v_Foo.gd", ok);
    assert_eq!(s.check_contains_non_export_var(), Ok(()));
    assert!(holds_exports_only(&chars(ok)));
    assert!(holds_exports_only(&[]));
    for bad in [
        "var a: int = 1\n",
        "@export var a: int\nfunc f():\n",
        "@export\tvar a: int\n",
        "@export var\n",
        "@exportvar a: int\n",
        "extends Node\n@onready var a: int\n",
    ] {
        let s = script("v_Foo.gd", bad);
        assert_eq!(
            s.check_contains_non_export_var(),
            Err(ScriptProblem::NonExportStatement),
            "{:?}",
            bad
        );
        assert!(!holds_exports_only(&chars(bad)));
    }
    // Lines that only begin like a header or a comment are let through.
    assert!(holds_exports_only(&chars("class_name_of_something()\nextendsX\n#!x")));
}

#[test]
fn value_script_rules_in_order() {
    let s = script("v_Foo.gd", "extends Node2D\nfunc f():\n");
    assert_eq!(check_value_script_isolated(&s), Err(ScriptProblem::NoClassName));
    let s = script("v_Foo.gd", "class_name Bar\nextends Node2D\nfunc f():\n");
    assert_eq!(check_value_script_isolated(&s), Err(ScriptProblem::ClassNameMismatch));
    let s = script("v_Foo.gd", "class_name Foo\nfunc f():\n");
    assert_eq!(check_value_script_isolated(&s), Err(ScriptProblem::ExtendsNothing));
    let s = script("v_Foo.gd", "class_name Foo\nextends Node2D\nfunc f():\n");
    assert_eq!(check_value_script_isolated(&s), Err(ScriptProblem::ExtendsOther));
    let s = script("v_Foo.gd", "class_name Foo\nextends Node\nfunc f():\n");
    assert_eq!(check_value_script_isolated(&s), Err(ScriptProblem::NonExportStatement));
    let s = script("v_Foo.gd", "class_name Foo\nextends Node\n@export var a: int\n");
    assert_eq!(check_value_script_isolated(&s), Ok(()));
    assert_eq!(check_script_isolated(&s), Ok(()));
}

#[test]
fn reference_script_rules_in_order() {
    let s = script("r_Foo.gd", "class_name Foo\nextends Node2D\nfunc f():\n");
    assert_eq!(check_reference_script_isolated(&s), Err(ScriptProblem::ReferenceHasClassName));
    let s = script("r_Foo.gd", "func f():\n");
    assert_eq!(check_reference_script_isolated(&s), Err(ScriptProblem::ExtendsNothing));
    let s = script("r_Foo.gd", "extends Node2D\nfunc f():\n");
    assert_eq!(check_reference_script_isolated(&s), Err(ScriptProblem::ExtendsOther));
    let s = script("r_Foo.gd", "extends Node\nfunc f():\n");
    assert_eq!(check_reference_script_isolated(&s), Err(ScriptProblem::NonExportStatement));
    let s = script("r_Foo.gd", "extends Node\n");
    assert_eq!(check_reference_script_isolated(&s), Ok(()));
}

#[test]
fn behaviour_script_rules_in_order() {
    let s = script("Foo.gd", "extends Node2D\n");
    assert_eq!(check_behaviour_script_isolated(&s), Err(ScriptProblem::NoClassName));
    let s = script("Foo.gd", "class_name Bar\n");
    assert_eq!(check_behaviour_script_isolated(&s), Err(ScriptProblem::ClassNameMismatch));
    let s = script("Foo.gd", "class_name Foo\n");
    assert_eq!(check_behaviour_script_isolated(&s), Err(ScriptProblem::ExtendsNothing));
    let s = script("Foo.gd", "class_name Foo\nextends Node2D\n");
    assert_eq!(check_behaviour_script_isolated(&s), Err(ScriptProblem::ExtendsOther));
    // A behaviour script may hold any statement.
    let s = script("Foo.gd", "class_name Foo\nextends Node\nfunc f():\n\tpass\n");
    assert_eq!(check_behaviour_script_isolated(&s), Ok(()));
    assert_eq!(check_script_isolated(&s), Ok(()));
}

#[test]
fn common_rules_come_first_and_in_order() {
    let s = script("foo.gd", "var a = $Node\n");
    assert_eq!(check_script_isolated(&s), Err(ScriptProblem::NameNotUpperCamelCase));
    let s = script("Foo.gd", "var a = $Node\n");
    assert_eq!(check_script_isolated(&s), Err(ScriptProblem::NodePathShorthand));
    let s = script("Foo.gd", "var a = 1\n");
    assert_eq!(check_script_isolated(&s), Err(ScriptProblem::UntypedVariable));
    let s = script("Foo.gd", "var a: int = 1\n");
    assert_eq!(check_script_isolated(&s), Err(ScriptProblem::NoClassName));
    let s = script("r_Foo.gd", "class_name Foo\n# costs 5$\n");
    assert_eq!(check_script_isolated(&s), Err(ScriptProblem::NodePathShorthand));
}

#[test]
fn rules_given_the_uppercase_form() {
    let s = script("Foo.gd", "class_name Foo\nextends Node\n");
    assert_eq!(check_script_given(&s, &['F']), Ok(()));
    assert_eq!(check_script_given(&s, &['f']), Err(ScriptProblem::NameNotUpperCamelCase));
    assert_eq!(check_script_given(&s, &[]), Err(ScriptProblem::NameNotUpperCamelCase));
    assert_eq!(check_script_given(&s, &['F', 'F']), Err(ScriptProblem::NameNotUpperCamelCase));
    // The name comes first, then `$`, then the typing, then the rules of the kind.
    let s = script("Foo_Bar.gd", "var a = $Node\n");
    assert_eq!(check_script_given(&s, &['F']), Err(ScriptProblem::NameNotUpperCamelCase));
    let s = script("Foo.gd", "var a = $Node\n");
    assert_eq!(check_script_given(&s, &['F']), Err(ScriptProblem::NodePathShorthand));
    let s = script("Foo.gd", "var a = 1\n");
    assert_eq!(check_script_given(&s, &['F']), Err(ScriptProblem::UntypedVariable));
    let s = script("Foo.gd", "var a: int = 1\n");
    assert_eq!(check_script_given(&s, &['F']), Err(ScriptProblem::NoClassName));
    let s = script("r_Foo.gd", "class_name Foo\n");
    assert_eq!(check_script_given(&s, &['F']), Err(ScriptProblem::ReferenceHasClassName));
    let s = script("v_Foo.gd", "class_name Foo\nextends Node\nfunc f():\n");
    assert_eq!(check_script_given(&s, &['F']), Err(ScriptProblem::NonExportStatement));
    // An empty name has no first character to compare.
    let s = script("v_.gd", "class_name \nextends Node\n");
    assert_eq!(s.name, "");
    assert_eq!(check_script_given(&s, &['X']), Err(ScriptProblem::NoClassName));
}

#[test]
fn script_problem_messages() {
    let f = "Foo.gd";
    assert_eq!(
        ScriptProblem::NameNotUpperCamelCase.message(f),
        "Foo.gd name not upper camel case"
    );
    assert_eq!(ScriptProblem::NodePathShorthand.message(f), "Foo.gd contains $");
    assert_eq!(
        ScriptProblem::UntypedVariable.message(f),
        "Foo.gd doesn't use static typing properly"
    );
    assert_eq!(ScriptProblem::NoClassName.message(f), "Foo.gd doesn't have a class_name");
    assert_eq!(
        ScriptProblem::ClassNameMismatch.message(f),
        "Foo.gd script name and class_name don't match"
    );
    assert_eq!(
        ScriptProblem::ReferenceHasClassName.message(f),
        "Foo.gd reference script has class_name"
    );
    assert_eq!(
        ScriptProblem::ExtendsNothing.message(f),
        "Foo.gd doesn't extend anything (should extend Node)"
    );
    assert_eq!(ScriptProblem::ExtendsOther.message(f), "Foo.gd doesn't extend Node");
    assert_eq!(
        ScriptProblem::NonExportStatement.message(f),
        "Foo.gd contains a non @export var statement"
    );
}

/// Splitting at each pattern in turn, as the standard library does it.
fn split_in_turn(s: &str, patterns: &[String]) -> Vec<String> {
    let mut parts: Vec<String> = vec![s.to_string()];
    for p in patterns {
        let mut next: Vec<String> = Vec::new();
        for part in &parts {
            for piece in part.split(p.as_str()) {
                next.push(piece.to_string());
            }
        }
        parts = next;
    }
    parts
}

#[test]
fn split_on_any_splits_at_each_pattern_in_turn() {
    let s = "a var b\tvar c var d".to_string();
    let patterns = vec![" var ".to_string(), "\tvar ".to_string()];
    assert_eq!(split_on_any(&s, &patterns), vec!["a", "b", "c", "d"]);
    assert_eq!(split_on_any(&s, &[]), vec![s.as_str()]);
    assert_eq!(split_on_any(&String::new(), &patterns), vec![""]);
    // The first pattern is taken out of the whole text before the second is looked for.
    let s = "\tvar var x".to_string();
    assert_eq!(split_on_any(&s, &patterns), vec!["\tvar", "x"]);
    let swapped = vec!["\tvar ".to_string(), " var ".to_string()];
    assert_eq!(split_on_any(&s, &swapped), vec!["", "var x"]);
}

#[test]
fn split_on_any_agrees_with_std_split() {
    let texts = [
        "",
        "abcabc",
        "a var b var  var c\tvar d",
        "x=1: var \tvar y",
        "éa\u{00A0}bé",
        "aaaa",
    ];
    let pattern_sets: Vec<Vec<String>> = vec![
        vec![],
        vec!["a".to_string()],
        vec![" var ".to_string(), "\tvar ".to_string()],
        vec!["aa".to_string(), "a".to_string()],
        vec!["b".to_string(), "".to_string()],
        vec!["".to_string(), "b".to_string(), "é".to_string()],
    ];
    for text in texts {
        let s = text.to_string();
        for patterns in &pattern_sets {
            let want = split_in_turn(text, patterns);
            assert_eq!(split_on_any(&s, patterns), want, "{:?} {:?}", text, patterns);
            let t = chars(text);
            let got: Vec<String> = split_on_any_bounds(&t, patterns)
                .iter()
                .map(|b| t[b.0..b.1].iter().collect())
                .collect();
            assert_eq!(got, want, "{:?} {:?}", text, patterns);
        }
    }
}
