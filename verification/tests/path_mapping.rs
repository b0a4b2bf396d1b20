use dewedat::path_mapper::map_path;
use dewedat::path_mapper::replace_prefix;
use dewedat::path_mapper::PathError;

#[test]
fn map_path_mirrors_the_tree_and_swaps_the_extension() {
    assert_eq!(
        map_path("/src/a/b.dat", "/src", "/dst", "png"),
        Ok(String::from("/dst/a/b.png"))
    );
}

#[test]
fn map_path_outside_the_source_root_fails() {
    assert_eq!(
        map_path("/elsewhere/a/b.dat", "/src", "/dst", "png"),
        Err(PathError::NotUnderSourceRoot)
    );
}

#[test]
fn map_path_takes_whole_components_for_the_prefix() {
    // "/src" is a prefix of the text "/srcs/b.dat" but not of the path.
    assert_eq!(map_path("/srcs/b.dat", "/src", "/dst", "png"), Err(PathError::NotUnderSourceRoot));
}

#[test]
fn map_path_replaces_whatever_extension_there_was() {
    assert_eq!(map_path("in/pic.jpeg", "in", "out", "gif"), Ok(String::from("out/pic.gif")));
    assert_eq!(map_path("in/a.b.dat", "in", "out", "bmp"), Ok(String::from("out/a.b.bmp")));
    assert_eq!(map_path("in/plain", "in", "out", "tiff"), Ok(String::from("out/plain.tiff")));
}

#[test]
fn map_path_with_relative_roots() {
    assert_eq!(
        map_path("source/x.dat", "source", "target", "jpg"),
        Ok(String::from("target/x.jpg"))
    );
    assert_eq!(
        map_path("source/2024/05/x.dat", "source", "target/out", "jpg"),
        Ok(String::from("target/out/2024/05/x.jpg"))
    );
}

#[test]
fn replace_prefix_moves_a_path_to_another_root() {
    assert_eq!(replace_prefix("/src/a/b.dat", "/src", "/dst"), Ok(String::from("/dst/a/b.dat")));
}

#[test]
fn replace_prefix_of_the_root_itself_is_the_new_root() {
    assert_eq!(replace_prefix("/src", "/src", "/dst"), Ok(String::from("/dst/")));
}

#[test]
fn replace_prefix_fails_where_the_prefix_is_missing() {
    assert_eq!(replace_prefix("/other/b.dat", "/src", "/dst"), Err(PathError::NotUnderSourceRoot));
    assert_eq!(replace_prefix("src/b.dat", "/src", "/dst"), Err(PathError::NotUnderSourceRoot));
}

#[test]
fn distinct_containers_map_to_distinct_images() {
    let files = ["s/a.dat", "s/b.dat", "s/d/a.dat", "s/d/e/a.dat", "s/d/e/b.dat"];
    let mut targets: Vec<String> = Vec::new();
    for file in files {
        let target = map_path(file, "s", "t", "png").unwrap();
        assert!(!targets.contains(&target));
        targets.push(target);
    }
    assert_eq!(targets, vec!["t/a.png", "t/b.png", "t/d/a.png", "t/d/e/a.png", "t/d/e/b.png"]);
}
