use gamemath::accessors::{
    lane_width, next_perm, perm_count, write_accessor, write_accessor_name, write_decimal,
    write_field_list, write_impl_block, write_swizzle_source, write_swizzles,
};
use gamemath::{Vector2i, Vector3i, Vector4i};

fn text(bytes: Vec<u8>) -> String {
    String::from_utf8(bytes).unwrap()
}

fn occurrences(haystack: &str, needle: &str) -> usize {
    haystack.matches(needle).count()
}

fn letter_index(letter: u8) -> usize {
    match letter {
        b'x' => 0,
        b'y' => 1,
        b'z' => 2,
        b'w' => 3,
        _ => panic!("not a field letter"),
    }
}

#[test]
fn next_perm_steps_the_last_digit_first() {
    let mut perm = [0usize, 0];
    next_perm(&mut perm, 3);
    assert_eq!(perm, [0, 1]);
    next_perm(&mut perm, 3);
    assert_eq!(perm, [0, 2]);
    next_perm(&mut perm, 3);
    assert_eq!(perm, [1, 0]);
}

#[test]
fn next_perm_carries_over_several_digits() {
    let mut perm = [1usize, 3, 3, 3];
    next_perm(&mut perm, 4);
    assert_eq!(perm, [2, 0, 0, 0]);
}

#[test]
fn next_perm_wraps_from_the_last_selection_to_the_first() {
    let mut perm = [1usize, 1, 1];
    next_perm(&mut perm, 2);
    assert_eq!(perm, [0, 0, 0]);
}

#[test]
fn next_perm_on_no_digits_does_nothing() {
    let mut perm: [usize; 0] = [];
    next_perm(&mut perm, 3);
    assert_eq!(perm, []);
}

#[test]
fn next_perm_visits_every_selection_once() {
    let mut perm = [0usize, 0, 0];
    let mut seen = vec![false; 27];
    for rank in 0..27 {
        assert_eq!(perm[0] * 9 + perm[1] * 3 + perm[2], rank);
        assert!(!seen[rank]);
        seen[rank] = true;
        next_perm(&mut perm, 3);
    }
    assert_eq!(perm, [0, 0, 0]);
    assert!(seen.iter().all(|s| *s));
}

#[test]
fn perm_count_is_a_power() {
    assert_eq!(perm_count(3, 2), 9);
    assert_eq!(perm_count(3, 3), 27);
    assert_eq!(perm_count(3, 4), 81);
    assert_eq!(perm_count(2, 2), 4);
    assert_eq!(perm_count(4, 4), 256);
    assert_eq!(perm_count(7, 0), 1);
    assert_eq!(perm_count(0, 0), 1);
    assert_eq!(perm_count(0, 3), 0);
    assert_eq!(perm_count(1, 50), 1);
}

#[test]
fn decimal_digits() {
    for n in [0usize, 7, 9, 10, 11, 99, 100, 255, 1234567890, usize::MAX] {
        let mut out = Vec::new();
        write_decimal(&mut out, n);
        assert_eq!(text(out), format!("{}", n));
    }
}

#[test]
fn decimal_appends_to_what_is_there() {
    let mut out = b"n = ".to_vec();
    write_decimal(&mut out, 42);
    assert_eq!(text(out), "n = 42");
}

#[test]
fn lane_width_is_the_next_power_of_two() {
    assert_eq!(lane_width(0), 1);
    assert_eq!(lane_width(1), 1);
    assert_eq!(lane_width(2), 2);
    assert_eq!(lane_width(3), 4);
    assert_eq!(lane_width(4), 4);
    assert_eq!(lane_width(5), 8);
    assert_eq!(lane_width(1000), 1024);
    for n in 1usize..200 {
        assert_eq!(lane_width(n), n.next_power_of_two());
    }
}

#[test]
fn accessor_names_are_the_field_letters() {
    let mut out = Vec::new();
    write_accessor_name(&mut out, &[0usize, 1, 2, 3]);
    assert_eq!(text(out), "xyzw");
    let mut out = Vec::new();
    write_accessor_name(&mut out, &[1usize, 0]);
    assert_eq!(text(out), "yx");
    let mut out = Vec::new();
    write_accessor_name(&mut out, &[0usize, 0, 0]);
    assert_eq!(text(out), "xxx");
}

#[test]
fn field_list_of_a_full_register() {
    let mut out = Vec::new();
    write_field_list(&mut out, &[1usize, 0]);
    assert_eq!(text(out), "1, 0");
    let mut out = Vec::new();
    write_field_list(&mut out, &[3usize, 2, 1, 0]);
    assert_eq!(text(out), "3, 2, 1, 0");
}

#[test]
fn field_list_fills_unused_lanes_with_index_zero() {
    let mut out = Vec::new();
    write_field_list(&mut out, &[1usize, 0, 2]);
    assert_eq!(text(out), "1, 0, 2, 0");
    let mut out = Vec::new();
    write_field_list(&mut out, &[2usize, 2, 2, 2, 2]);
    assert_eq!(text(out), "2, 2, 2, 2, 2, 0, 0, 0");
    let mut out = Vec::new();
    let none: [usize; 0] = [];
    write_field_list(&mut out, &none);
    assert_eq!(text(out), ", 0");
}

#[test]
fn accessor_source_text() {
    let mut out = Vec::new();
    write_accessor(&mut out, &[1usize, 0], "f");
    let expected = "    #[allow(missing_docs)]\n    #[inline]\n    pub fn yx(&self) -> Vector2f {\n        Vector2f::from_simd_truncate(simd_swizzle!(self.0, [1, 0]))\n    }\n";
    assert_eq!(text(out), expected);
}

#[test]
fn accessor_source_text_of_a_padded_result() {
    let mut out = Vec::new();
    write_accessor(&mut out, &[2usize, 2, 0], "i");
    let expected = "    #[allow(missing_docs)]\n    #[inline]\n    pub fn zzx(&self) -> Vector3i {\n        Vector3i::from_simd_truncate(simd_swizzle!(self.0, [2, 2, 0, 0]))\n    }\n";
    assert_eq!(text(out), expected);
}

#[test]
fn swizzles_of_two_components_in_order() {
    let mut out = Vec::new();
    write_swizzles::<2, 2>(&mut out, "i");
    let expected = "    #[allow(missing_docs)]\n    #[inline]\n    pub fn xx(&self) -> Vector2i {\n        Vector2i::from_simd_truncate(simd_swizzle!(self.0, [0, 0]))\n    }\n\n    #[allow(missing_docs)]\n    #[inline]\n    pub fn xy(&self) -> Vector2i {\n        Vector2i::from_simd_truncate(simd_swizzle!(self.0, [0, 1]))\n    }\n\n    #[allow(missing_docs)]\n    #[inline]\n    pub fn yx(&self) -> Vector2i {\n        Vector2i::from_simd_truncate(simd_swizzle!(self.0, [1, 0]))\n    }\n\n    #[allow(missing_docs)]\n    #[inline]\n    pub fn yy(&self) -> Vector2i {\n        Vector2i::from_simd_truncate(simd_swizzle!(self.0, [1, 1]))\n    }\n";
    assert_eq!(text(out), expected);
}

fn accessor_names<const C: usize, const M: usize>() -> Vec<String> {
    let mut out = Vec::new();
    write_swizzles::<C, M>(&mut out, "i");
    let source = text(out);
    let mut names = Vec::new();
    for line in source.lines() {
        if let Some(rest) = line.strip_prefix("    pub fn ") {
            names.push(rest.split('(').next().unwrap().to_string());
        }
    }
    names
}

fn check_names<const C: usize, const M: usize>() {
    let names = accessor_names::<C, M>();
    let mut expected = 1;
    for _ in 0..M {
        expected *= C;
    }
    assert_eq!(names.len(), expected);
    let mut sorted = names.clone();
    sorted.sort();
    sorted.dedup();
    assert_eq!(sorted.len(), expected);
    for name in &names {
        assert_eq!(name.len(), M);
        for letter in name.bytes() {
            assert!(letter_index(letter) < C);
        }
    }
}

#[test]
fn three_components_give_9_27_and_81_accessors() {
    assert_eq!(accessor_names::<3, 2>().len(), 9);
    assert_eq!(accessor_names::<3, 3>().len(), 27);
    assert_eq!(accessor_names::<3, 4>().len(), 81);
}

#[test]
fn every_width_pair_gives_all_distinct_accessors() {
    check_names::<2, 2>();
    check_names::<2, 3>();
    check_names::<2, 4>();
    check_names::<3, 2>();
    check_names::<3, 3>();
    check_names::<3, 4>();
    check_names::<4, 2>();
    check_names::<4, 3>();
    check_names::<4, 4>();
}

#[test]
fn repeated_components_are_among_the_accessors() {
    let two = accessor_names::<3, 2>();
    assert!(two.contains(&"xx".to_string()));
    assert!(two.contains(&"zz".to_string()));
    let three = accessor_names::<3, 3>();
    assert!(three.contains(&"xxx".to_string()));
    assert!(three.contains(&"yxy".to_string()));
    assert_eq!(two.first().unwrap(), "xx");
    assert_eq!(two.last().unwrap(), "zz");
    assert_eq!(three[1], "xxy");
}

#[test]
fn swizzles_are_separated_by_one_empty_line() {
    let mut out = Vec::new();
    write_swizzles::<3, 2>(&mut out, "f");
    let source = text(out);
    assert_eq!(occurrences(&source, "    }\n\n    #[allow(missing_docs)]\n"), 8);
    assert!(source.starts_with("    #[allow(missing_docs)]\n"));
    assert!(source.ends_with("    }\n"));
    assert!(!source.contains("\n\n\n"));
}

#[test]
fn swizzle_of_two_components_equals_indexing_by_name() {
    let v = Vector3i::new(10, 20, 30);
    let mut perm = [0usize; 2];
    for _ in 0..9 {
        let mut name = Vec::new();
        write_accessor_name(&mut name, &perm);
        let r = v.swizzle2(perm);
        assert_eq!(r, Vector2i::new(v[letter_index(name[0])], v[letter_index(name[1])]));
        next_perm(&mut perm, 3);
    }
}

#[test]
fn swizzle_of_three_components_equals_indexing_by_name() {
    let v = Vector3i::new(10, 20, 30);
    let mut perm = [0usize; 3];
    for _ in 0..27 {
        let mut name = Vec::new();
        write_accessor_name(&mut name, &perm);
        let r = v.swizzle3(perm);
        let expected = Vector3i::new(
            v[letter_index(name[0])],
            v[letter_index(name[1])],
            v[letter_index(name[2])],
        );
        assert_eq!(r, expected);
        assert_eq!(r.padding_lane(), 0);
        next_perm(&mut perm, 3);
    }
}

#[test]
fn swizzle_of_four_components_equals_indexing_by_name() {
    let v = Vector3i::new(10, 20, 30);
    let mut perm = [0usize; 4];
    for _ in 0..81 {
        let mut name = Vec::new();
        write_accessor_name(&mut name, &perm);
        let r = v.swizzle4(perm);
        let expected = Vector4i::new(
            v[letter_index(name[0])],
            v[letter_index(name[1])],
            v[letter_index(name[2])],
            v[letter_index(name[3])],
        );
        assert_eq!(r, expected);
        next_perm(&mut perm, 3);
    }
}

#[test]
fn impl_block_holds_the_three_widths() {
    let mut out = Vec::new();
    write_impl_block::<3>(&mut out, "Vector3i", "i");
    let source = text(out);
    assert!(source.starts_with("impl Vector3i {\n    #[allow(missing_docs)]\n"));
    assert!(source.ends_with("    }\n}\n"));
    assert_eq!(occurrences(&source, "    pub fn "), 9 + 27 + 81);
    assert_eq!(occurrences(&source, "-> Vector2i {"), 9);
    assert_eq!(occurrences(&source, "-> Vector3i {"), 27);
    assert_eq!(occurrences(&source, "-> Vector4i {"), 81);
}

#[test]
fn impl_block_exact_text_around_the_joints() {
    let mut out = Vec::new();
    write_impl_block::<2>(&mut out, "Vector2f", "f");
    let source = text(out);
    let joint = "    pub fn yy(&self) -> Vector2f {\n        Vector2f::from_simd_truncate(simd_swizzle!(self.0, [1, 1]))\n    }\n\n    #[allow(missing_docs)]\n    #[inline]\n    pub fn xxx(&self) -> Vector3f {\n        Vector3f::from_simd_truncate(simd_swizzle!(self.0, [0, 0, 0, 0]))\n    }\n";
    assert!(source.contains(joint));
}

#[test]
fn whole_source_has_a_block_for_each_type() {
    let mut out = Vec::new();
    write_swizzle_source(&mut out);
    let source = text(out);
    let owners = [
        "Vector2f", "Vector3f", "Vector4f", "Vector2i", "Vector3i", "Vector4i", "Quaternion",
    ];
    let mut from = 0;
    for owner in owners {
        let header = format!("impl {} {{\n", owner);
        let at = source[from..].find(&header).unwrap();
        from += at + header.len();
    }
    assert_eq!(occurrences(&source, "impl "), 7);
    let per_two = 4 + 8 + 16;
    let per_three = 9 + 27 + 81;
    let per_four = 16 + 64 + 256;
    assert_eq!(occurrences(&source, "    pub fn "), 2 * per_two + 2 * per_three + 3 * per_four);
    assert!(source.starts_with("impl Vector2f {\n"));
    assert!(source.ends_with("}\n"));
}

#[test]
fn quaternion_block_returns_float_vectors() {
    let mut out = Vec::new();
    write_swizzle_source(&mut out);
    let source = text(out);
    let at = source.find("impl Quaternion {\n").unwrap();
    let block = &source[at..];
    assert_eq!(occurrences(block, "-> Vector2f {"), 16);
    assert_eq!(occurrences(block, "-> Vector3f {"), 64);
    assert_eq!(occurrences(block, "-> Vector4f {"), 256);
    assert!(block.contains("    pub fn wzyx(&self) -> Vector4f {\n        Vector4f::from_simd_truncate(simd_swizzle!(self.0, [3, 2, 1, 0]))\n    }\n"));
}
