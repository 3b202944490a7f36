use mommy_lib::compiler::TranspileError;
use mommy_lib::config::Config;
use mommy_lib::errors::{MommyErrorResponse, MommyLangError};
use mommy_lib::numbers::{decimal_text, parse_usize, parses_as_float, parses_as_i32};
use mommy_lib::responses::{MommyLangStatus, MommyShellError, MommyShellOk, MommyUI};
use mommy_lib::shell::{clean_path_with_win_prefix, user_updated_text, validate_file, MommySettings, MommyShellCommands};
use mommy_lib::shell_responses::{GeneralFlavorResponse, MommySuiteResponse, ShellOkResponse};
use mommy_lib::suite::{core_exe, get_jitter, MommyBootloader, RequiredDirectory, BASE_DELAY_MS};
use mommy_lib::syntax::{CommandType, MommyLangSyntax};
use mommy_lib::text::{replace_text, trim, unquote};
use mommy_lib::validate::{is_accessed_index_invalid, is_invalid_array_size, select_inner_type, select_max_size};
use mommy_lib::symbols::TypeDesc;

#[test]
fn number_texts() {
    assert_eq!(parse_usize("+42"), Some(42));
    assert_eq!(parse_usize("007"), Some(7));
    assert_eq!(parse_usize("-1"), None);
    assert_eq!(parse_usize(""), None);
    assert_eq!(parse_usize("+"), None);
    assert_eq!(parse_usize("99999999999999999999999"), None);
    assert!(parses_as_i32("-2147483648"));
    assert!(!parses_as_i32("2147483648"));
    for ok in ["1", "-1.", ".5", "+1e5", "1E-5", "inf", "-Infinity", "NaN", "3.25e+2"] {
        assert!(parses_as_float(ok), "{}", ok);
        assert_eq!(parses_as_float(ok), ok.parse::<f64>().is_ok());
    }
    for bad in ["", ".", "e5", "1e", "1.2.3", "- 1", "infinit", "0x10", "1_000"] {
        assert!(!parses_as_float(bad), "{}", bad);
        assert_eq!(parses_as_float(bad), bad.parse::<f64>().is_ok());
    }
    assert_eq!(decimal_text(0), "0");
    assert_eq!(decimal_text(1070), "1070");
}

#[test]
fn text_helpers() {
    assert_eq!(trim("\u{a0} x y \t"), "x y");
    assert_eq!(unquote("\"\"hi\"\""), "hi");
    assert_eq!(replace_text("a.mommy.b.mommy", ".mommy", ".c"), "a.c.b.c");
}

#[test]
fn classifiers() {
    assert_eq!(MommyLangSyntax::from_str(" ibegyou "), MommyLangSyntax::Malloc);
    assert_eq!(MommyLangSyntax::from_str("mod"), MommyLangSyntax::Math);
    assert_eq!(MommyLangSyntax::from_str("Say"), MommyLangSyntax::Unknown);
    assert_eq!(CommandType::from_str("mod"), CommandType::Unknown);
    assert_eq!(CommandType::from_str("punishme"), CommandType::LoopStart);
    assert_eq!(MommyShellCommands::from_str("mommy?"), MommyShellCommands::ShellListFilesCurrentDirectory);
    assert_eq!(MommyShellCommands::from_str("exit"), MommyShellCommands::ShellUnknownCommand);
}

#[test]
fn type_descriptor_checks() {
    let arr = TypeDesc::Array("float".to_string(), "4".to_string());
    let heap = TypeDesc::Heap("int".to_string(), "n".to_string());
    assert!(is_accessed_index_invalid(&arr, "4"));
    assert!(!is_accessed_index_invalid(&arr, "3"));
    assert!(!is_accessed_index_invalid(&heap, "100"));
    assert_eq!(select_inner_type(&arr), "float");
    assert_eq!(select_inner_type(&TypeDesc::Pointer), "String");
    assert_eq!(select_max_size(&arr), 4);
    assert_eq!(select_max_size(&heap), 0);
    assert!(is_invalid_array_size("1000001"));
    assert!(!is_invalid_array_size("1000000"));
}

#[test]
fn compiler_arguments() {
    let args = vec!["mommy_lang".to_string(), "dir/prog.mommy".to_string()];
    let c = Config::new(&args).unwrap();
    assert_eq!(c.input_path, "dir/prog.mommy");
    assert_eq!(c.c_path, "dir/prog.c");
    assert_eq!(c.exe_path, "dir/prog.exe");
    assert_eq!(Config::new(&args[..1]).err(), Some(MommyLangError::StatusNoFile.message().to_string()));
    let wrong = vec!["x".to_string(), "prog.txt".to_string()];
    assert_eq!(Config::new(&wrong).err(), Some(MommyLangError::WrongFileType.message().to_string()));
}

#[test]
fn messages() {
    assert_eq!(MommyLangError::DivideByZero.message(), "Divide by zero? Do you WANT to break the universe? Don't be stupid.");
    assert_eq!(MommyErrorResponse::UnclosedBlock.message(), "Do you know how to use punctuations?");
    assert_eq!(MommyLangStatus::CodeOutputBegins.message(), "--- MOMMY OUTPUT BEGINS ---");
    assert_eq!(MommyShellOk::FileDeleted.message(), "Gone. I hope you didn't need that.");
    assert_eq!(MommyShellError::TooManyArgs.message(), "One thing at a time. Don't be greedy.");
    assert_eq!(MommyUI::Clear.message(), "\x1B[2J\x1B[1;1H");
    assert_eq!(ShellOkResponse::OkTerminate.message(), "Talk to you later sweetie.");
    assert_eq!(GeneralFlavorResponse::FlavorMenu2.message(), "It is made by \"HiveMind\" to showcase my talents ^^.");
    assert_eq!(MommySuiteResponse::RootNotFound.message(), "Root not found!");
    assert_eq!(TranspileError::Line(12, MommyLangError::OrphanElse).message(),
        "Line, 12: This 'else' has no 'if'. It is alone, just like you will be if you keep this up.");
}

#[test]
fn shell_rules() {
    assert_eq!(clean_path_with_win_prefix("\\\\?\\C:\\x"), "C:\\x");
    assert_eq!(clean_path_with_win_prefix("C:\\x"), "C:\\x");
    assert_eq!(validate_file("prog"), "prog.mommy");
    assert_eq!(validate_file("prog.mommy"), "prog.mommy");
    let s = MommySettings::from_text("output = out\nuser=\r\nmommy_bin=b=c\nnoise\nuser= Ann \n", "conf".to_string());
    assert_eq!(s.output_directory, "out");
    assert_eq!(s.user_name, "Ann");
    assert_eq!(s.bin_exe, "b=c");
    assert!(!s.username_does_not_exist());
    let d = MommySettings::from_text("", "conf".to_string());
    assert_eq!(d.output_directory, "sandbox");
    assert!(d.username_does_not_exist());
}

#[test]
fn suite_data() {
    assert_eq!(RequiredDirectory::all().len(), 5);
    assert_eq!(RequiredDirectory::Sandbox.dir_name(), "sandbox");
    assert_eq!(RequiredDirectory::Bin.hex_code(), "[0x09D0]");
    assert_eq!(core_exe()[1].run_path, "mommy_bin/mommy_lang.exe");
    let b = MommyBootloader::double_new("Hello", "world").with_delay(7);
    assert_eq!(b.message(), "Hello world");
    assert_eq!(b.base_delay_ms(), 7);
    assert_eq!(MommyBootloader::new("x").base_delay_ms(), BASE_DELAY_MS);
    assert_eq!(get_jitter(1234, 100), 34);
}

fn user_rewrite_by_lines(content: &str, new_user: &str) -> String {
    let mut updated = String::new();
    let mut user_found = false;
    for line in content.lines() {
        if let Some((key, _)) = line.split_once('=') {
            if key.trim() == "user" {
                updated.push_str(&format!("user={}\n", new_user));
                user_found = true;
            } else {
                updated.push_str(&format!("{}\n", line));
            }
        } else {
            updated.push_str(&format!("{}\n", line));
        }
    }
    if !user_found {
        updated.push_str(&format!("user={}\n", new_user));
    }
    updated.trim().to_string()
}

#[test]
fn settings_user_rewrite() {
    assert_eq!(user_updated_text("output=out\nuser=Bob\n", "Ann"), "output=out\nuser=Ann");
    assert_eq!(user_updated_text("output=out", "Ann"), "output=out\nuser=Ann");
    assert_eq!(user_updated_text("", "Ann"), "user=Ann");
    for content in ["a=1\r\n user =x\r\nb\r", "\n\nuser=1\nuser=2\n", "x\r\n\r\n", "=\n user\t= q"] {
        assert_eq!(user_updated_text(content, "Zed"), user_rewrite_by_lines(content, "Zed"), "{:?}", content);
    }
}
