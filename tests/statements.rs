use mommy_lib::alu::calculate_two;
use mommy_lib::declaration::{allocate_heap, create_array, create_variable, deallocate_heap, replace};
use mommy_lib::errors::MommyLangError;
use mommy_lib::flow::{ask, done, for_loop, or, satisfied, while_loop};
use mommy_lib::io::{listen, say};
use mommy_lib::lexer::insert_token;
use mommy_lib::package::{add_package, CStandardPackages};
use mommy_lib::symbols::SymbolTable;

fn toks(text: &str) -> Vec<String> {
    insert_token(text)
}

#[test]
fn tokenizer_keeps_quoted_text_together() {
    assert_eq!(toks("say \"a  b\" c"), vec!["say", "\"a  b\"", "c"]);
    assert_eq!(toks("  a\tb\r\nc  "), vec!["a", "b", "c"]);
    assert_eq!(toks(""), Vec::<String>::new());
    assert_eq!(toks("say \"open ended"), vec!["say", "\"open ended"]);
}

#[test]
fn declaration_forms() {
    let mut s = SymbolTable::new();
    assert_eq!(create_variable(&toks("mayihave null in p as box"), &mut s), Ok("int* p = NULL;".to_string()));
    assert_eq!(create_variable(&toks("mayihave \"hi there\" in t as String"), &mut s), Ok("char* t = \"hi there\";".to_string()));
    assert_eq!(create_variable(&toks("mayihave 1 2 in v as int"), &mut s), Ok("int v = 1 2;".to_string()));
    assert_eq!(create_variable(&toks("mayihave 1 in int as int"), &mut s), Err(MommyLangError::InvalidVariableName));
    assert_eq!(create_variable(&toks("mayihave 1 in w"), &mut s), Err(MommyLangError::MissingArguments));
    assert_eq!(create_variable(&toks("mayihave 1 on w as int x"), &mut s), Err(MommyLangError::SyntaxError));
    assert_eq!(create_variable(&toks("mayihave 1 2 3 in w as"), &mut s), Err(MommyLangError::SyntaxError));
    assert_eq!(create_variable(&toks("mayihave 5 in w of int"), &mut s), Err(MommyLangError::SyntaxError));
    assert!(s.contains("p") && s.contains("t") && s.contains("v") && !s.contains("w"));
}

#[test]
fn array_and_heap_declarations() {
    let mut s = SymbolTable::new();
    assert_eq!(create_array(&toks("ascii 10 in name as ascii"), &mut s), Ok("int name[10] = {0};".to_string()));
    assert_eq!(create_array(&toks("group x in a as int"), &mut s), Err(MommyLangError::SyntaxError));
    assert_eq!(create_array(&toks("group 1000001 in a as int"), &mut s), Err(MommyLangError::SyntaxError));
    assert_eq!(create_array(&toks("group 5 on a as int"), &mut s), Err(MommyLangError::SyntaxError));
    assert_eq!(create_array(&toks("group 5 on int as int"), &mut s), Err(MommyLangError::SyntaxError));
    assert_eq!(create_array(&toks("group 5 in int as int"), &mut s), Err(MommyLangError::InvalidVariableName));
    assert_eq!(create_array(&toks("group 5 in name as int"), &mut s), Err(MommyLangError::VariableAlreadyExists));
    assert_eq!(
        allocate_heap(&toks("ibegyou n in buf as float"), &mut s),
        Ok("float* buf = (float*)malloc(n * sizeof(float)); if (buf == NULL) { printf(\"Mommy Error: No memory for buf\\n\"); return 1; }".to_string())
    );
    assert_eq!(allocate_heap(&toks("ibegyou 4 in while as int"), &mut s), Err(MommyLangError::InvalidVariableName));
    assert_eq!(deallocate_heap(&toks("takeitback buf"), &mut s), Ok("free(buf); buf = NULL;".to_string()));
    assert_eq!(deallocate_heap(&toks("takeitback nothing"), &mut s), Err(MommyLangError::UndeclaredVariable));
    assert_eq!(deallocate_heap(&toks("takeitback"), &mut s), Err(MommyLangError::MissingArguments));
    assert!(s.contains("buf"));
}

#[test]
fn replace_shapes() {
    let mut s = SymbolTable::new();
    create_variable(&toks("mayihave 1 in x as int"), &mut s).unwrap();
    create_variable(&toks("mayihave null in p as box"), &mut s).unwrap();
    create_array(&toks("group 3 in arr as int"), &mut s).unwrap();
    assert_eq!(replace(&toks("replace x with 4"), &mut s), Ok("x = 4;".to_string()));
    assert_eq!(replace(&toks("replace x with arr in 2"), &mut s), Ok("x = arr[2];".to_string()));
    assert_eq!(replace(&toks("replace x with arr in 3"), &mut s), Err(MommyLangError::AccessViolation));
    assert_eq!(replace(&toks("replace x with y in 0"), &mut s), Err(MommyLangError::UndeclaredVariable));
    assert_eq!(replace(&toks("replace y with arr in 2"), &mut s), Err(MommyLangError::UndeclaredVariable));
    assert_eq!(replace(&toks("replace x in 0 with 1"), &mut s), Err(MommyLangError::TypeMismatch));
    assert_eq!(replace(&toks("replace arr in i with 1"), &mut s), Ok("arr[i] = 1;".to_string()));
    assert_eq!(replace(&toks("replace arr in 1 to 1"), &mut s), Err(MommyLangError::SyntaxError));
    assert_eq!(replace(&toks("replace p with x address"), &mut s), Ok("p = &x;".to_string()));
    assert_eq!(replace(&toks("replace p with q address"), &mut s), Err(MommyLangError::UndeclaredVariable));
    assert_eq!(
        replace(&toks("replace p with 9 inside"), &mut s),
        Ok("if (p == NULL) { printf(\"Mommy Error: NULL Pointer access on 'p'\\n\"); return 1; } *p = 9;".to_string())
    );
    assert_eq!(replace(&toks("replace x with p inside"), &mut s), Ok("x = *p;".to_string()));
    assert_eq!(replace(&toks("replace z with 1"), &mut s), Err(MommyLangError::UndeclaredVariable));
    assert_eq!(replace(&toks("replace x by 1"), &mut s), Err(MommyLangError::SyntaxError));
    assert_eq!(replace(&toks("replace x with"), &mut s), Err(MommyLangError::MissingArguments));
}

#[test]
fn arithmetic_rules() {
    let mut s = SymbolTable::new();
    create_variable(&toks("mayihave \"a\" in t as String"), &mut s).unwrap();
    create_variable(&toks("mayihave 0 in n as int"), &mut s).unwrap();
    assert_eq!(calculate_two("t", "+", "1", &s), Err(MommyLangError::MathOnString));
    assert_eq!(calculate_two("m", "+", "1", &s), Err(MommyLangError::UndeclaredVariable));
    assert_eq!(calculate_two("n", "+", "inf", &s), Ok("n = n + inf;".to_string()));
    assert_eq!(calculate_two("n", "+", ".5", &s), Ok("n = n + .5;".to_string()));
    assert_eq!(calculate_two("n", "+", "1e", &s), Err(MommyLangError::UndeclaredVariable));
    assert_eq!(calculate_two("n", "+", "1.2.3", &s), Err(MommyLangError::UndeclaredVariable));
    assert_eq!(calculate_two("n", "/", "n", &s), Ok("n = n / n;".to_string()));
}

#[test]
fn say_forms() {
    let mut s = SymbolTable::new();
    create_array(&toks("ascii 4 in word as ascii"), &mut s).unwrap();
    create_array(&toks("group +3 in fs as float"), &mut s).unwrap();
    create_variable(&toks("mayihave null in p as box"), &mut s).unwrap();
    create_variable(&toks("mayihave 0 in i as int"), &mut s).unwrap();
    create_variable(&toks("mayihave 'a' in c as ascii"), &mut s).unwrap();
    allocate_heap(&toks("ibegyou i in buf as int"), &mut s).unwrap();
    create_array(&toks("group 0 in none as int"), &mut s).unwrap();
    assert_eq!(say(&toks("say buf in 99"), &s), Ok("printf(\"%d\\n\", buf[99]);".to_string()));
    assert_eq!(
        say(&toks("say buf in ?"), &s),
        Ok("for (int i = 0; i < i; i++) { printf(\"%d \", buf[i]); } printf(\"\\n\");".to_string())
    );
    assert_eq!(say(&toks("say none in 0"), &s), Err(MommyLangError::AccessViolation));
    assert_eq!(
        say(&toks("say word in ?"), &s),
        Ok("for (int i = 0; i < 4; i++) { printf(\"%c\", word[i]); } printf(\"\\n\");".to_string())
    );
    assert_eq!(
        say(&toks("say fs in ?"), &s),
        Ok("for (int i = 0; i < 3; i++) { printf(\"%f \", fs[i]); } printf(\"\\n\");".to_string())
    );
    assert_eq!(say(&toks("say fs in 2"), &s), Ok("printf(\"%f\\n\", fs[2]);".to_string()));
    assert_eq!(say(&toks("say fs in 3"), &s), Err(MommyLangError::AccessViolation));
    assert_eq!(say(&toks("say fs in i"), &s), Ok("printf(\"%f\\n\", fs[i]);".to_string()));
    assert_eq!(say(&toks("say fs in $"), &s), Err(MommyLangError::SyntaxError));
    assert_eq!(say(&toks("say i in 0"), &s), Err(MommyLangError::TypeMismatch));
    assert_eq!(say(&toks("say p in 0"), &s), Ok("printf(\"%s\\n\", p[0]);".to_string()));
    assert_eq!(say(&toks("say p in ?"), &s), Err(MommyLangError::TypeMismatch));
    assert_eq!(say(&toks("say q in 0"), &s), Err(MommyLangError::UndeclaredVariable));
    assert_eq!(
        say(&toks("say p"), &s),
        Ok("if (p == NULL) { printf(\"NULL\\n\"); } else { printf(\"%d\\n\", *p); }".to_string())
    );
    assert_eq!(say(&toks("say c"), &s), Ok("printf(\"%c\\n\", c);".to_string()));
    assert_eq!(say(&toks("say 42"), &s), Ok("printf(\"%d\\n\", 42);".to_string()));
    assert_eq!(say(&toks("say 3000000000"), &s), Ok("printf(\"%f\\n\", 3000000000);".to_string()));
    assert_eq!(say(&toks("say -1.5"), &s), Ok("printf(\"%f\\n\", -1.5);".to_string()));
    assert_eq!(say(&toks("say word"), &s), Ok("printf(\"%d\\n\", word);".to_string()));
    assert_eq!(say(&toks("say nobody"), &s), Err(MommyLangError::UndeclaredVariable));
    assert_eq!(say(&toks("say \"two words\" here"), &s), Ok("printf(\"two words\" here\\n\");".to_string()));
    assert_eq!(say(&toks("say"), &s), Err(MommyLangError::MissingArguments));
}

#[test]
fn listen_forms() {
    let mut s = SymbolTable::new();
    create_variable(&toks("mayihave 0 in i as int"), &mut s).unwrap();
    create_variable(&toks("mayihave 0 in f as float"), &mut s).unwrap();
    create_variable(&toks("mayihave \"\" in t as String"), &mut s).unwrap();
    create_array(&toks("ascii 8 in w as ascii"), &mut s).unwrap();
    create_variable(&toks("mayihave null in p as box"), &mut s).unwrap();
    assert_eq!(
        listen(&toks("listen i"), &s),
        Ok("{ char _mommy_buf[64]; if(fgets(_mommy_buf, 64, stdin)) { i = atoi(_mommy_buf); } }".to_string())
    );
    assert_eq!(
        listen(&toks("listen f"), &s),
        Ok("{ char _mommy_buf[64]; if(fgets(_mommy_buf, 64, stdin)) { f = atof(_mommy_buf); } }".to_string())
    );
    assert_eq!(listen(&toks("listen t"), &s), Ok("fgets(t, 128, stdin); t[strcspn(t, \"\\n\")] = 0;".to_string()));
    assert_eq!(listen(&toks("listen t upto 16"), &s), Ok("fgets(t, 16, stdin); t[strcspn(t, \"\\n\")] = 0;".to_string()));
    assert_eq!(
        listen(&toks("listen w"), &s),
        Ok("{ char _temp_ascii[8]; if(fgets(_temp_ascii, 8, stdin)) { for(int i=0; i<8; i++) { if(_temp_ascii[i] == '\\0' || _temp_ascii[i] == '\\n') { w[i] = 0; for(int j=i+1; j<8; j++) { w[j] = 0; } break; } w[i] = (int)_temp_ascii[i]; } } }".to_string())
    );
    assert_eq!(listen(&toks("listen p"), &s), Err(MommyLangError::TypeMismatch));
    create_variable(&toks("mayihave 0 in ms as MyString"), &mut s).unwrap();
    create_variable(&toks("mayihave 0 in ch as ascii"), &mut s).unwrap();
    create_array(&toks("group 3 in ns as int"), &mut s).unwrap();
    assert_eq!(listen(&toks("listen ms"), &s), Err(MommyLangError::TypeMismatch));
    assert_eq!(listen(&toks("listen ch"), &s), Err(MommyLangError::TypeMismatch));
    assert_eq!(listen(&toks("listen ns"), &s), Err(MommyLangError::TypeMismatch));
    assert_eq!(listen(&toks("listen z"), &s), Err(MommyLangError::UndeclaredVariable));
    assert_eq!(listen(&toks("listen"), &s), Err(MommyLangError::MissingArguments));
}

#[test]
fn block_texts() {
    assert_eq!(for_loop(&toks("punishme 3")), "for (int i = 0; i < 3; i++) {");
    assert_eq!(while_loop(&toks("punishmeif a < b")), "while (a < b) {");
    assert_eq!(done(), "}");
    assert_eq!(satisfied(), "break;");
    assert_eq!(or(), Ok("}else {".to_string()));
    assert_eq!(ask(&toks("ask if a == b")), Ok("if (a == b) {".to_string()));
    assert_eq!(ask(&toks("say if a")), Err(MommyLangError::SyntaxError));
}

#[test]
fn package_lookup() {
    assert_eq!(add_package(" listen_and_read "), Ok("#include <stdio.h>".to_string()));
    assert_eq!(add_package("ask_more"), Ok("#include <stdlib.h>".to_string()));
    assert_eq!(add_package("math"), Err(MommyLangError::UnknownPackage));
    assert_eq!(CStandardPackages::UnknownPackage.include_line(), "");
}
