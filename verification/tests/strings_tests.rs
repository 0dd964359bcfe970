use adesh_aot::strings::{collect_strings, contains_text, plan_string_data, string_data_bytes, StringOrigin};

fn owned(v: &[&str]) -> Vec<String> {
    v.iter().map(|s| s.to_string()).collect()
}

#[test]
fn constants_first_then_typeof_names() {
    let r = collect_strings(&owned(&["hello", "world", "hello"]));
    assert_eq!(r[0], "hello");
    assert_eq!(r[1], "world");
    assert_eq!(r[2], "object");
    assert_eq!(r.len(), 2 + 57);
    assert_eq!(r[r.len() - 1], "three");
}

#[test]
fn colour_literals_bring_their_escapes() {
    let r = collect_strings(&owned(&["#ff0000", "x"]));
    assert_eq!(r[0], "#ff0000");
    assert_eq!(r[1], "\x1b[38;2;255;0;0m");
    assert_eq!(r[2], "\x1b[48;2;255;0;0m");
    assert_eq!(r[3], "x");
    let r = collect_strings(&owned(&["#nothex"]));
    assert_eq!(r[1], "object");
}

#[test]
fn collected_strings_are_unique() {
    let r = collect_strings(&owned(&["u8", "#abc", "#aabbcc", "one"]));
    for i in 0..r.len() {
        for j in (i + 1)..r.len() {
            assert_ne!(r[i], r[j]);
        }
    }
    assert!(contains_text(&r, "u8"));
    assert!(contains_text(&r, "#aabbcc"));
}

#[test]
fn data_bytes_drop_nul_and_terminate() {
    assert_eq!(string_data_bytes("ab"), vec![b'a', b'b', 0]);
    assert_eq!(string_data_bytes("a\0b"), vec![b'a', b'b', 0]);
    assert_eq!(string_data_bytes(""), vec![0]);
}

#[test]
fn planned_names_and_order() {
    let plan = plan_string_data(&Vec::new(), &owned(&["hi", "%s"]), true);
    assert_eq!(plan[0].key, "hi");
    assert_eq!(plan[0].name, "str_0");
    assert_eq!(plan[0].origin, StringOrigin::Module);
    assert_eq!(plan[1].key, "%s");
    assert_eq!(plan[1].name, "str_1");
    assert_eq!(plan[2].key, "%lld\n");
    assert_eq!(plan[2].name, "fmt_int");
    assert_eq!(plan[3].name, "fmt_float");
    assert_eq!(plan[4].name, "fmt_str");
    assert_eq!(plan[5].key, "\"%s\"");
    assert_eq!(plan[5].name, "str_5");
    assert_eq!(plan[5].origin, StringOrigin::Runtime);
    assert!(plan.iter().all(|e| e.key != "%s" || e.name == "str_1"));
    assert_eq!(plan.len(), 2 + 3 + 66);
}

#[test]
fn fast_mode_skips_style_and_type_strings() {
    let fast = plan_string_data(&Vec::new(), &Vec::new(), true);
    let full = plan_string_data(&Vec::new(), &Vec::new(), false);
    assert!(fast.iter().all(|e| e.key != "\x1b[1m"));
    assert!(full.iter().any(|e| e.key == "\x1b[1m"));
    assert!(full.iter().any(|e| e.key == "undefined"));
    assert_eq!(full.len(), fast.len() + 4 + 20);
}

#[test]
fn strings_already_held_are_not_planned() {
    let plan = plan_string_data(&owned(&["%lld\n", "x"]), &owned(&["x", "y"]), true);
    assert_eq!(plan[0].key, "y");
    assert_eq!(plan[0].name, "str_2");
    assert_eq!(plan[1].key, "%g\n");
    assert_eq!(plan[1].bytes, vec![b'%', b'g', b'\n', 0]);
}
