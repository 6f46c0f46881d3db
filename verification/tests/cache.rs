use chess_assets::cacher::{CacheError, CacheState, Cacher};

fn required_names() -> Vec<&'static str> {
    vec![
        "black_bishop.png",
        "white_bishop.png",
        "black_knight.png",
        "white_knight.png",
        "black_pawn.png",
        "white_pawn.png",
        "black_rook.png",
        "white_rook.png",
        "black_queen.png",
        "white_queen.png",
        "black_king.png",
        "white_king.png",
        "board_alt.png",
        "highlight.png",
        "selected.png",
    ]
}

#[test]
fn asset_names_lists_the_fifteen_required_files() {
    let names = Cacher::<u32>::asset_names();
    assert_eq!(names, required_names());
}

#[test]
fn new_cache_is_unpopulated() {
    let c: Cacher<u32> = Cacher::new(String::from("assets"));
    assert_eq!(c.state(), CacheState::Unpopulated);
    assert!(c.get("white_king.png").is_none());
}

#[test]
fn join_path_appends_the_name() {
    let c: Cacher<u32> = Cacher::new(String::from("assets"));
    assert_eq!(c.join_path("white_king.png"), "assets/white_king.png");
}

#[test]
fn populate_loads_every_asset_and_get_finds_them() {
    let mut c: Cacher<String> = Cacher::new(String::from("assets"));
    let r = c.populate(|path: String| Ok::<String, String>(path));
    assert_eq!(r, Ok(()));
    assert_eq!(c.state(), CacheState::Populated);
    for name in required_names() {
        let handle = c.get(name).expect("populated cache must hold every required asset");
        assert_eq!(handle, &format!("assets/{name}"));
    }
    assert!(c.get("nonexistent.png").is_none());
    assert!(c.get("white_king").is_none());
}

#[test]
fn populate_fails_fast_on_the_first_missing_asset() {
    let mut c: Cacher<u32> = Cacher::new(String::from("assets"));
    let r = c.populate(|path: String| {
        if path.ends_with("black_rook.png") {
            Err(String::from("missing file"))
        } else {
            Ok(7)
        }
    });
    match r {
        Err(CacheError::TextureLoadFailed { name, cause }) => {
            assert_eq!(name, "black_rook.png");
            assert_eq!(cause, "missing file");
        },
        other => panic!("expected a load failure, got {other:?}"),
    }
    assert_eq!(c.state(), CacheState::Failed);
    assert!(c.get("nonexistent.png").is_none());
}

#[test]
fn new_and_populate_composes_both_steps() {
    let c = Cacher::new_and_populate(String::from("assets"), |_path: String| Ok::<u32, String>(3));
    let c = c.expect("every load succeeds");
    assert_eq!(c.state(), CacheState::Populated);
    assert_eq!(c.get("white_king.png"), Some(&3));

    let failed = Cacher::<u32>::new_and_populate(String::from("assets"), |path: String| {
        if path.ends_with("highlight.png") {
            Err(String::from("corrupt image"))
        } else {
            Ok(3)
        }
    });
    match failed {
        Err(CacheError::TextureLoadFailed { name, cause }) => {
            assert_eq!(name, "highlight.png");
            assert_eq!(cause, "corrupt image");
        },
        other => panic!("expected a load failure, got {other:?}"),
    }
}

#[test]
fn stepwise_population_follows_the_required_order() {
    let mut c: Cacher<usize> = Cacher::new(String::from("assets"));
    let mut seen = Vec::new();
    let mut handle = 0;
    while let Some(name) = c.pending_asset() {
        seen.push(name);
        c.insert(handle);
        handle += 1;
    }
    assert_eq!(seen, required_names());
    assert_eq!(c.state(), CacheState::Populated);
    assert_eq!(c.get("black_bishop.png"), Some(&0));
    assert_eq!(c.get("selected.png"), Some(&14));
}

#[test]
fn mark_failed_abandons_the_cache() {
    let mut c: Cacher<u32> = Cacher::new(String::from("assets"));
    c.insert(1);
    c.mark_failed();
    assert_eq!(c.state(), CacheState::Failed);
    assert!(c.pending_asset().is_none());
}

#[test]
fn directory_error_reports_no_asset_name() {
    let e = CacheError::AssetDirectoryNotFound;
    assert_ne!(e, CacheError::TextureLoadFailed { name: String::new(), cause: String::new() });
}
