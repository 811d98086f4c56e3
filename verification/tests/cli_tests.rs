use lsplex::cli::cli;

fn strings(v: &[&str]) -> Vec<String> {
    v.iter().map(|s| s.to_string()).collect()
}

#[test]
fn servers_with_and_without_arguments() {
    let lsps = cli(strings(&["rust-analyzer", "pylsp --verbose --log-file x.log"])).unwrap();
    assert_eq!(lsps.len(), 2);
    assert_eq!(lsps[0].lsp_name, "rust-analyzer");
    assert!(lsps[0].lsp_args.is_empty());
    assert_eq!(lsps[1].lsp_name, "pylsp");
    assert_eq!(lsps[1].lsp_args, strings(&["--verbose", "--log-file", "x.log"]));
}

#[test]
fn every_space_splits() {
    let lsps = cli(strings(&["a  b ", " c"])).unwrap();
    assert_eq!(lsps[0].lsp_name, "a");
    assert_eq!(lsps[0].lsp_args, strings(&["", "b", ""]));
    assert_eq!(lsps[1].lsp_name, "");
    assert_eq!(lsps[1].lsp_args, strings(&["c"]));
}

#[test]
fn no_servers() {
    assert!(cli(vec![]).unwrap().is_empty());
    let lsps = cli(strings(&[""])).unwrap();
    assert_eq!(lsps[0].lsp_name, "");
    assert!(lsps[0].lsp_args.is_empty());
}

#[test]
fn tabs_do_not_split() {
    let lsps = cli(strings(&["clangd\t--x é"])).unwrap();
    assert_eq!(lsps[0].lsp_name, "clangd\t--x");
    assert_eq!(lsps[0].lsp_args, strings(&["é"]));
}
