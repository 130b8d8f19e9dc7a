use wgpu_external_memory::names::{
    contains_all, contains_any, contains_name, extend_names, is_whitespace, missing_names,
    split_names,
};

fn list(names: &[&str]) -> Vec<String> {
    names.iter().map(|name| name.to_string()).collect()
}

#[test]
fn name_is_found_by_exact_match() {
    let names = list(&["VK_KHR_surface", "VK_KHR_external_memory"]);
    assert!(contains_name(&names, &"VK_KHR_external_memory".to_string()));
    assert!(!contains_name(&names, &"VK_KHR_external_memory_fd".to_string()));
    assert!(!contains_name(&names, &"VK_KHR_external".to_string()));
    assert!(!contains_name(&names, &"vk_khr_surface".to_string()));
    assert!(!contains_name(&list(&[]), &"VK_KHR_surface".to_string()));
}

#[test]
fn all_names_are_needed() {
    let names = list(&["a", "b", "c"]);
    assert!(contains_all(&names, &list(&["c", "a"])));
    assert!(contains_all(&names, &list(&[])));
    assert!(!contains_all(&names, &list(&["a", "d"])));
    assert!(!contains_all(&list(&[]), &list(&["a"])));
}

#[test]
fn any_name_is_enough() {
    let names = list(&["a", "b", "c"]);
    assert!(contains_any(&names, &list(&["x", "b"])));
    assert!(!contains_any(&names, &list(&["x", "y"])));
    assert!(!contains_any(&names, &list(&[])));
}

#[test]
fn missing_names_keep_their_order() {
    let names = list(&["b"]);
    assert_eq!(missing_names(&names, &list(&["c", "b", "a", "c"])), list(&["c", "a", "c"]));
    assert_eq!(missing_names(&names, &list(&["b"])), list(&[]));
    assert_eq!(missing_names(&list(&[]), &list(&["a", "b"])), list(&["a", "b"]));
}

#[test]
fn extending_appends_in_order() {
    let mut names = list(&["a", "b"]);
    extend_names(&mut names, &list(&["c", "a"]));
    assert_eq!(names, list(&["a", "b", "c", "a"]));
    extend_names(&mut names, &list(&[]));
    assert_eq!(names, list(&["a", "b", "c", "a"]));
}

#[test]
fn extension_string_is_split_at_whitespace() {
    assert_eq!(split_names("EGL_a EGL_b"), list(&["EGL_a", "EGL_b"]));
    assert_eq!(split_names("  EGL_a \t\n EGL_b  "), list(&["EGL_a", "EGL_b"]));
    assert_eq!(split_names(""), list(&[]));
    assert_eq!(split_names("   "), list(&[]));
    assert_eq!(split_names("one"), list(&["one"]));
    assert_eq!(split_names(" one"), list(&["one"]));
    assert_eq!(split_names("one "), list(&["one"]));
    assert_eq!(split_names("a b  c\u{3000}d\u{a0}e"), list(&["a", "b", "c", "d", "e"]));
    assert_eq!(split_names("gr\u{fc}n bl\u{e5}"), list(&["gr\u{fc}n", "bl\u{e5}"]));
}

#[test]
fn whitespace_is_that_of_the_standard_library() {
    for code in 0..=0x10ffffu32 {
        if let Some(c) = char::from_u32(code) {
            assert_eq!(is_whitespace(c), c.is_whitespace(), "U+{:04X}", code);
        }
    }
}

#[test]
fn names_are_those_of_the_standard_library() {
    let separators = [' ', '\t', '\n', '\u{b}', '\u{c}', '\r', '\u{85}', '\u{2003}', '\u{2028}'];
    let others = ['a', '_', '0', '\u{0}', '\u{8}', '\u{e}', '\u{1f}', '\u{200b}', '\u{feff}', '\u{1f600}'];
    let mut texts = vec![String::new()];
    for round in 0..4 {
        let mut longer = Vec::new();
        for text in &texts {
            for c in separators.iter().chain(others.iter()).skip(round % 2).step_by(2) {
                let mut next = text.clone();
                next.push(*c);
                longer.push(next);
            }
        }
        texts.extend(longer);
    }
    assert!(texts.len() > 1000);
    for text in &texts {
        let expected: Vec<String> = text.split_whitespace().map(|word| word.to_string()).collect();
        assert_eq!(&split_names(text), &expected, "{:?}", text);
    }
}
