use self_update::asset::find_suitable_asset;
use self_update::release::GitHubAsset;

fn asset(name: &str) -> GitHubAsset {
    GitHubAsset {
        name: name.to_string(),
        browser_download_url: format!("https://example.com/download/{name}"),
        size: 1,
    }
}

fn names(list: &[&str]) -> Vec<GitHubAsset> {
    list.iter().map(|name| asset(name)).collect()
}

#[test]
fn zst_is_preferred_to_tar_gz() {
    let assets = names(&[
        "codex-x86_64-unknown-linux-musl.tar.gz",
        "codex-x86_64-unknown-linux-musl.zst",
    ]);
    let found = find_suitable_asset(&assets, "x86_64-unknown-linux-musl").unwrap();
    assert_eq!(found.name, "codex-x86_64-unknown-linux-musl.zst");
    assert_eq!(
        found.browser_download_url,
        "https://example.com/download/codex-x86_64-unknown-linux-musl.zst"
    );
}

#[test]
fn nothing_fits_without_the_platform_in_the_name() {
    let assets = names(&[
        "codex-aarch64-apple-darwin.zst",
        "codex-aarch64-apple-darwin.tar.gz",
        "codex.zst",
    ]);
    assert!(find_suitable_asset(&assets, "x86_64-unknown-linux-musl").is_none());
    assert!(find_suitable_asset(&[], "x86_64-unknown-linux-musl").is_none());
}

#[test]
fn tar_gz_is_taken_where_no_zst_fits() {
    let assets = names(&[
        "codex-aarch64-apple-darwin.zst",
        "codex-x86_64-unknown-linux-musl.zip",
        "codex-x86_64-unknown-linux-musl.tar.gz",
    ]);
    let found = find_suitable_asset(&assets, "x86_64-unknown-linux-musl").unwrap();
    assert_eq!(found.name, "codex-x86_64-unknown-linux-musl.tar.gz");
}

#[test]
fn zip_alone_does_not_fit_a_platform_unlike_windows() {
    let assets = names(&["codex-x86_64-unknown-linux-musl.zip"]);
    assert!(find_suitable_asset(&assets, "x86_64-unknown-linux-musl").is_none());
}

#[test]
fn the_first_of_several_fitting_assets_is_taken() {
    let assets = names(&[
        "other-x86_64-unknown-linux-musl.zst",
        "codex-x86_64-unknown-linux-musl.zst",
    ]);
    let found = find_suitable_asset(&assets, "x86_64-unknown-linux-musl").unwrap();
    assert_eq!(found.name, "other-x86_64-unknown-linux-musl.zst");
}

#[test]
fn windows_suffixes_are_tried_in_their_order() {
    let target = "x86_64-pc-windows-msvc";
    let all = names(&[
        "codex-x86_64-pc-windows-msvc.exe.tar.gz",
        "codex-x86_64-pc-windows-msvc.exe.zip",
        "codex-x86_64-pc-windows-msvc.exe.zst",
    ]);
    assert_eq!(
        find_suitable_asset(&all, target).unwrap().name,
        "codex-x86_64-pc-windows-msvc.exe.zst"
    );
    let without_zst = names(&[
        "codex-x86_64-pc-windows-msvc.exe.tar.gz",
        "codex-x86_64-pc-windows-msvc.exe.zip",
    ]);
    assert_eq!(
        find_suitable_asset(&without_zst, target).unwrap().name,
        "codex-x86_64-pc-windows-msvc.exe.zip"
    );
    let tar_only = names(&["codex-x86_64-pc-windows-msvc.exe.tar.gz"]);
    assert_eq!(
        find_suitable_asset(&tar_only, target).unwrap().name,
        "codex-x86_64-pc-windows-msvc.exe.tar.gz"
    );
}

#[test]
fn windows_needs_the_exe_suffixes() {
    let assets = names(&[
        "codex-x86_64-pc-windows-msvc.zst",
        "codex-x86_64-pc-windows-msvc.tar.gz",
        "codex-x86_64-pc-windows-msvc.zip",
    ]);
    assert!(find_suitable_asset(&assets, "x86_64-pc-windows-msvc").is_none());
}

#[test]
fn the_platform_is_matched_as_a_substring() {
    let assets = names(&["codex-x86_64-unknown-linux-musleabi.zst"]);
    let found = find_suitable_asset(&assets, "x86_64-unknown-linux-musl").unwrap();
    assert_eq!(found.name, "codex-x86_64-unknown-linux-musleabi.zst");
}

fn first_fitting<'a>(assets: &'a [GitHubAsset], target: &str) -> Option<&'a GitHubAsset> {
    let suffixes: &[&str] = if target.contains("windows") {
        &[".exe.zst", ".exe.zip", ".exe.tar.gz"]
    } else {
        &[".zst", ".tar.gz"]
    };
    for suffix in suffixes {
        for asset in assets {
            if asset.name.contains(target) && asset.name.ends_with(suffix) {
                return Some(asset);
            }
        }
    }
    None
}

#[test]
fn the_choice_is_the_first_fit_of_the_best_suffix() {
    let targets = [
        "x86_64-unknown-linux-musl",
        "aarch64-apple-darwin",
        "x86_64-pc-windows-msvc",
        "windows",
        "",
    ];
    let stems = ["codex-", "other-", ""];
    let suffixes = [".zst", ".tar.gz", ".zip", ".exe.zst", ".exe.zip", ".exe.tar.gz", ""];
    let mut pool = Vec::new();
    for stem in stems {
        for target in targets {
            for suffix in suffixes {
                pool.push(format!("{stem}{target}{suffix}"));
            }
        }
    }
    let mut seed: u64 = 0x9e37_79b9_7f4a_7c15;
    for _ in 0..200 {
        let mut assets = Vec::new();
        seed ^= seed << 13;
        seed ^= seed >> 7;
        seed ^= seed << 17;
        let count = seed % 6;
        for _ in 0..count {
            seed ^= seed << 13;
            seed ^= seed >> 7;
            seed ^= seed << 17;
            assets.push(asset(&pool[(seed % pool.len() as u64) as usize]));
        }
        for target in targets {
            let found = find_suitable_asset(&assets, target).map(|asset| &asset.name);
            let expected = first_fitting(&assets, target).map(|asset| &asset.name);
            assert_eq!(found, expected, "{target:?}");
            match (find_suitable_asset(&assets, target), first_fitting(&assets, target)) {
                (Some(found), Some(expected)) => assert!(std::ptr::eq(found, expected)),
                (None, None) => {}
                _ => panic!("one found an asset, the other none"),
            }
        }
    }
}
