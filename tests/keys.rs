use article_reflect::keys::{extract_keys, keys_to_delete, orphaned_keys};

fn strings(v: &[&str]) -> Vec<String> {
    v.iter().map(|s| s.to_string()).collect()
}

fn sorted(mut v: Vec<String>) -> Vec<String> {
    v.sort();
    v
}

#[test]
fn extract_finds_nothing_in_plain_text() {
    assert!(extract_keys("").is_empty());
    assert!(extract_keys("just words, no pictures").is_empty());
    assert!(extract_keys("img/ img/.png img/name. img/name").is_empty());
}

#[test]
fn extract_takes_key_after_marker() {
    let body = "<p>hello</p><img src=\"https://bucket.example.com/img/cat_01.png\">";
    assert_eq!(extract_keys(body), strings(&["cat_01.png"]));
}

#[test]
fn extract_keeps_each_key_once() {
    let body = "img/a.png and img/b-2.jpg and again img/a.png";
    assert_eq!(sorted(extract_keys(body)), strings(&["a.png", "b-2.jpg"]));
}

#[test]
fn extract_stops_at_end_of_extension() {
    assert_eq!(extract_keys("...img/key1.png...img/key2.png..."), strings(&["key1.png", "key2.png"]));
    assert_eq!(extract_keys("img/x.tar.gz"), strings(&["x.tar"]));
}

#[test]
fn extract_reads_past_wide_characters() {
    let body = "写真です img/猫.png img/neko.png 以上";
    assert_eq!(extract_keys(body), strings(&["neko.png"]));
}

#[test]
fn self_diff_is_empty() {
    let body = "img/a.png img/b.png img/a.png";
    assert!(keys_to_delete(body, body).is_empty());
    let keys = extract_keys(body);
    assert!(orphaned_keys(&keys, &keys).is_empty());
}

#[test]
fn disjoint_union_minus_part_gives_other_part() {
    let a = strings(&["a.png", "b.png"]);
    let b = strings(&["c.png"]);
    let mut union = a.clone();
    union.extend(b.clone());
    assert_eq!(sorted(orphaned_keys(&union, &b)), a);
}

#[test]
fn orphaned_of_empty_is_empty() {
    assert!(orphaned_keys(&Vec::new(), &strings(&["a.png"])).is_empty());
    assert_eq!(orphaned_keys(&strings(&["a.png"]), &Vec::new()), strings(&["a.png"]));
}

#[test]
fn edit_that_drops_one_image_orphans_it() {
    let old = "...img/key1.png...img/key2.png...";
    let new = "...img/key1.png...";
    assert_eq!(keys_to_delete(old, new), strings(&["key2.png"]));
    assert!(keys_to_delete(new, old).is_empty());
}
