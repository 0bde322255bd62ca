//! What the fetch tool is told, and where it leaves what it fetched.

use crate::mod_manifest::ModManifestMod;
use vstd::prelude::*;

verus! {

/// The directives that ask the tool for the given items, one triple for each
/// item in order: the directive, the application, the item.
pub open spec fn download_directives(install: Seq<(Seq<char>, u64)>) -> Seq<Seq<char>>
    decreases install.len(),
{
    if install.len() == 0 {
        Seq::empty()
    } else {
        download_directives(install.drop_last()) + seq![
            "+workshop_download_item"@,
            "211820"@,
            install.last().0,
        ]
    }
}

/// The arguments of one invocation of the tool: where to put what it
/// fetches, an anonymous login, one download directive for each item, and
/// the directive to quit.
pub open spec fn fetch_arguments(staging_root: Seq<char>, install: Seq<(Seq<char>, u64)>) -> Seq<
    Seq<char>,
> {
    seq!["+force_install_dir"@, staging_root, "+login"@, "anonymous"@] + download_directives(
        install,
    ) + seq!["+quit"@]
}

/// The name under which the fetch tool is started.
pub fn fetch_tool() -> (name: &'static str)
    ensures
        name@ == "steamcmd"@,
{
    "steamcmd"
}

/// The name of the file, inside the directory of installed items, that
/// receives what the tool prints.
pub fn fetch_log_name() -> (name: &'static str)
    ensures
        name@ == "steamcmd.log"@,
{
    "steamcmd.log"
}

/// The directory, below the staging root, in which the tool leaves one
/// directory for each item it fetched, named by the item's identifier.
pub fn staged_content_dir() -> (path: &'static str)
    ensures
        path@ == "steamapps/workshop/content/211820/"@,
{
    "steamapps/workshop/content/211820/"
}

/// The arguments with which the fetch tool is started once to fetch all the
/// given items into the staging root.
pub fn download_arguments(staging_root: &str, install: &Vec<ModManifestMod>) -> (arguments: Vec<
    String,
>)
    ensures
        arguments.deep_view() == fetch_arguments(staging_root@, install.deep_view()),
{
    let mut arguments: Vec<String> = Vec::new();
    arguments.push(String::from_str("+force_install_dir"));
    arguments.push(String::from_str(staging_root));
    arguments.push(String::from_str("+login"));
    arguments.push(String::from_str("anonymous"));
    let ghost head = seq!["+force_install_dir"@, staging_root@, "+login"@, "anonymous"@];
    assert(arguments.deep_view() =~= head + download_directives(install.deep_view().take(0)));
    let mut i: usize = 0;
    while i < install.len()
        invariant
            i <= install.len(),
            head == seq!["+force_install_dir"@, staging_root@, "+login"@, "anonymous"@],
            arguments.deep_view() == head + download_directives(install.deep_view().take(i as int)),
        decreases install.len() - i,
    {
        let ghost before = arguments.deep_view();
        arguments.push(String::from_str("+workshop_download_item"));
        arguments.push(String::from_str("211820"));
        arguments.push(install[i].publishedfileid.clone());
        proof {
            let next = install.deep_view().take(i + 1);
            assert(next.drop_last() == install.deep_view().take(i as int));
            assert(next.last() == install[i as int]@);
            assert(arguments.deep_view() =~= before + seq![
                "+workshop_download_item"@,
                "211820"@,
                install[i as int]@.0,
            ]);
        }
        i += 1;
    }
    assert(install.deep_view().take(i as int) == install.deep_view());
    let ghost before = arguments.deep_view();
    arguments.push(String::from_str("+quit"));
    assert(arguments.deep_view() =~= before + seq!["+quit"@]);
    arguments
}

} // verus!
