//! The debug pages.
use crate::handler::JsonRpcHandler;
use crate::text::same_text;
use vstd::prelude::*;

verus! {

/// A debug page, or a file that one uses.
#[derive(Clone, Copy, Debug, PartialEq, Eq)]
pub enum DebugPage {
    LastBlocks,
    LastBlocksCss,
    LastBlocksJs,
    NetworkInfo,
    NetworkInfoCss,
    NetworkInfoJs,
    Tier1NetworkInfo,
    EpochInfo,
    EpochInfoCss,
    ChainNChunkInfo,
    ChainNChunkInfoCss,
    Sync,
    SyncCss,
    Validator,
    ValidatorCss,
    SplitStore,
}

impl DebugPage {
    /// The name that the page is asked for by.
    pub open spec fn name(self) -> Seq<char> {
        match self {
            DebugPage::LastBlocks => "last_blocks"@,
            DebugPage::LastBlocksCss => "last_blocks.css"@,
            DebugPage::LastBlocksJs => "last_blocks.js"@,
            DebugPage::NetworkInfo => "network_info"@,
            DebugPage::NetworkInfoCss => "network_info.css"@,
            DebugPage::NetworkInfoJs => "network_info.js"@,
            DebugPage::Tier1NetworkInfo => "tier1_network_info"@,
            DebugPage::EpochInfo => "epoch_info"@,
            DebugPage::EpochInfoCss => "epoch_info.css"@,
            DebugPage::ChainNChunkInfo => "chain_n_chunk_info"@,
            DebugPage::ChainNChunkInfoCss => "chain_n_chunk_info.css"@,
            DebugPage::Sync => "sync"@,
            DebugPage::SyncCss => "sync.css"@,
            DebugPage::Validator => "validator"@,
            DebugPage::ValidatorCss => "validator.css"@,
            DebugPage::SplitStore => "split_store"@,
        }
    }

    /// The file that holds the page.
    pub open spec fn spec_file(self) -> Seq<char> {
        match self {
            DebugPage::LastBlocks => "last_blocks.html"@,
            DebugPage::LastBlocksCss => "last_blocks.css"@,
            DebugPage::LastBlocksJs => "last_blocks.js"@,
            DebugPage::NetworkInfo => "network_info.html"@,
            DebugPage::NetworkInfoCss => "network_info.css"@,
            DebugPage::NetworkInfoJs => "network_info.js"@,
            DebugPage::Tier1NetworkInfo => "tier1_network_info.html"@,
            DebugPage::EpochInfo => "epoch_info.html"@,
            DebugPage::EpochInfoCss => "epoch_info.css"@,
            DebugPage::ChainNChunkInfo => "chain_n_chunk_info.html"@,
            DebugPage::ChainNChunkInfoCss => "chain_n_chunk_info.css"@,
            DebugPage::Sync => "sync.html"@,
            DebugPage::SyncCss => "sync.css"@,
            DebugPage::Validator => "validator.html"@,
            DebugPage::ValidatorCss => "validator.css"@,
            DebugPage::SplitStore => "split_store.html"@,
        }
    }

    /// The page of that name, if there is one.
    pub fn of_name(name: &String) -> (page: Option<DebugPage>)
        ensures
            match page {
                Some(page) => page.name() == name@,
                None => forall|page: DebugPage| #[trigger] page.name() != name@,
            },
    {
        if same_text(name, "last_blocks") {
            Some(DebugPage::LastBlocks)
        } else if same_text(name, "last_blocks.css") {
            Some(DebugPage::LastBlocksCss)
        } else if same_text(name, "last_blocks.js") {
            Some(DebugPage::LastBlocksJs)
        } else if same_text(name, "network_info") {
            Some(DebugPage::NetworkInfo)
        } else if same_text(name, "network_info.css") {
            Some(DebugPage::NetworkInfoCss)
        } else if same_text(name, "network_info.js") {
            Some(DebugPage::NetworkInfoJs)
        } else if same_text(name, "tier1_network_info") {
            Some(DebugPage::Tier1NetworkInfo)
        } else if same_text(name, "epoch_info") {
            Some(DebugPage::EpochInfo)
        } else if same_text(name, "epoch_info.css") {
            Some(DebugPage::EpochInfoCss)
        } else if same_text(name, "chain_n_chunk_info") {
            Some(DebugPage::ChainNChunkInfo)
        } else if same_text(name, "chain_n_chunk_info.css") {
            Some(DebugPage::ChainNChunkInfoCss)
        } else if same_text(name, "sync") {
            Some(DebugPage::Sync)
        } else if same_text(name, "sync.css") {
            Some(DebugPage::SyncCss)
        } else if same_text(name, "validator") {
            Some(DebugPage::Validator)
        } else if same_text(name, "validator.css") {
            Some(DebugPage::ValidatorCss)
        } else if same_text(name, "split_store") {
            Some(DebugPage::SplitStore)
        } else {
            None
        }
    }

    /// The file that holds the page.
    pub fn file(self) -> (file: &'static str)
        ensures
            file@ == self.spec_file(),
    {
        match self {
            DebugPage::LastBlocks => "last_blocks.html",
            DebugPage::LastBlocksCss => "last_blocks.css",
            DebugPage::LastBlocksJs => "last_blocks.js",
            DebugPage::NetworkInfo => "network_info.html",
            DebugPage::NetworkInfoCss => "network_info.css",
            DebugPage::NetworkInfoJs => "network_info.js",
            DebugPage::Tier1NetworkInfo => "tier1_network_info.html",
            DebugPage::EpochInfo => "epoch_info.html",
            DebugPage::EpochInfoCss => "epoch_info.css",
            DebugPage::ChainNChunkInfo => "chain_n_chunk_info.html",
            DebugPage::ChainNChunkInfoCss => "chain_n_chunk_info.css",
            DebugPage::Sync => "sync.html",
            DebugPage::SyncCss => "sync.css",
            DebugPage::Validator => "validator.html",
            DebugPage::ValidatorCss => "validator.css",
            DebugPage::SplitStore => "split_store.html",
        }
    }
}

/// The length of each name, and one character of it.
proof fn lemma_page_marks(page: DebugPage)
    ensures
        match page {
            DebugPage::LastBlocks => page.name().len() == 11 && page.name()[0] == 'l',
            DebugPage::LastBlocksCss => page.name().len() == 15 && page.name()[0] == 'l',
            DebugPage::LastBlocksJs => page.name().len() == 14 && page.name()[0] == 'l',
            DebugPage::NetworkInfo => page.name().len() == 12 && page.name()[0] == 'n',
            DebugPage::NetworkInfoCss => page.name().len() == 16 && page.name()[0] == 'n',
            DebugPage::NetworkInfoJs => page.name().len() == 15 && page.name()[0] == 'n',
            DebugPage::Tier1NetworkInfo => page.name().len() == 18 && page.name()[0] == 't',
            DebugPage::EpochInfo => page.name().len() == 10 && page.name()[0] == 'e',
            DebugPage::EpochInfoCss => page.name().len() == 14 && page.name()[0] == 'e',
            DebugPage::ChainNChunkInfo => page.name().len() == 18 && page.name()[0] == 'c',
            DebugPage::ChainNChunkInfoCss => page.name().len() == 22 && page.name()[0] == 'c',
            DebugPage::Sync => page.name().len() == 4 && page.name()[0] == 's',
            DebugPage::SyncCss => page.name().len() == 8 && page.name()[0] == 's',
            DebugPage::Validator => page.name().len() == 9 && page.name()[0] == 'v',
            DebugPage::ValidatorCss => page.name().len() == 13 && page.name()[0] == 'v',
            DebugPage::SplitStore => page.name().len() == 11 && page.name()[0] == 's',
        },
{
    match page {
        DebugPage::LastBlocks => {
            reveal_strlit("last_blocks");
        },
        DebugPage::LastBlocksCss => {
            reveal_strlit("last_blocks.css");
        },
        DebugPage::LastBlocksJs => {
            reveal_strlit("last_blocks.js");
        },
        DebugPage::NetworkInfo => {
            reveal_strlit("network_info");
        },
        DebugPage::NetworkInfoCss => {
            reveal_strlit("network_info.css");
        },
        DebugPage::NetworkInfoJs => {
            reveal_strlit("network_info.js");
        },
        DebugPage::Tier1NetworkInfo => {
            reveal_strlit("tier1_network_info");
        },
        DebugPage::EpochInfo => {
            reveal_strlit("epoch_info");
        },
        DebugPage::EpochInfoCss => {
            reveal_strlit("epoch_info.css");
        },
        DebugPage::ChainNChunkInfo => {
            reveal_strlit("chain_n_chunk_info");
        },
        DebugPage::ChainNChunkInfoCss => {
            reveal_strlit("chain_n_chunk_info.css");
        },
        DebugPage::Sync => {
            reveal_strlit("sync");
        },
        DebugPage::SyncCss => {
            reveal_strlit("sync.css");
        },
        DebugPage::Validator => {
            reveal_strlit("validator");
        },
        DebugPage::ValidatorCss => {
            reveal_strlit("validator.css");
        },
        DebugPage::SplitStore => {
            reveal_strlit("split_store");
        },
    }
}

/// No two pages have the same name.
pub proof fn law_page_names_are_distinct(one: DebugPage, other: DebugPage)
    requires
        one.name() == other.name(),
    ensures
        one == other,
{
    lemma_page_marks(one);
    lemma_page_marks(other);
}

/// Whether the name is that of a file that a page uses: a style sheet or a script.
pub open spec fn names_a_file(name: Seq<char>) -> bool {
    ".css"@.is_suffix_of(name) || ".js"@.is_suffix_of(name)
}

/// How the name of a style sheet or a script ends.
proof fn lemma_end_of_file_name(name: Seq<char>)
    requires
        names_a_file(name),
    ensures
        name.len() >= 2,
        name[name.len() - 1] == 's',
        name[name.len() - 2] == 's' || name[name.len() - 2] == 'j',
{
    reveal_strlit(".css");
    reveal_strlit(".js");
    if ".css"@.is_suffix_of(name) {
        let tail = name.subrange(name.len() - 4, name.len() as int);
        assert(tail[3] == ".css"@[3]);
        assert(tail[2] == ".css"@[2]);
    } else {
        let tail = name.subrange(name.len() - 3, name.len() as int);
        assert(tail[2] == ".js"@[2]);
        assert(tail[1] == ".js"@[1]);
    }
}

/// A page is in the file of its name, with `.html` behind it where the name is not that of a
/// style sheet or a script already.
pub proof fn law_page_file(page: DebugPage)
    ensures
        page.spec_file() == (if names_a_file(page.name()) {
            page.name()
        } else {
            page.name() + ".html"@
        }),
{
    reveal_strlit(".html");
    reveal_strlit(".css");
    reveal_strlit(".js");
    match page {
        DebugPage::LastBlocks => {
            reveal_strlit("last_blocks");
            reveal_strlit("last_blocks.html");
            if names_a_file("last_blocks"@) {
                lemma_end_of_file_name("last_blocks"@);
            }
            assert("last_blocks.html"@ =~= "last_blocks"@ + ".html"@);
        },
        DebugPage::LastBlocksCss => {
            reveal_strlit("last_blocks.css");
            assert(".css"@.is_suffix_of("last_blocks.css"@));
        },
        DebugPage::LastBlocksJs => {
            reveal_strlit("last_blocks.js");
            assert(".js"@.is_suffix_of("last_blocks.js"@));
        },
        DebugPage::NetworkInfo => {
            reveal_strlit("network_info");
            reveal_strlit("network_info.html");
            if names_a_file("network_info"@) {
                lemma_end_of_file_name("network_info"@);
            }
            assert("network_info.html"@ =~= "network_info"@ + ".html"@);
        },
        DebugPage::NetworkInfoCss => {
            reveal_strlit("network_info.css");
            assert(".css"@.is_suffix_of("network_info.css"@));
        },
        DebugPage::NetworkInfoJs => {
            reveal_strlit("network_info.js");
            assert(".js"@.is_suffix_of("network_info.js"@));
        },
        DebugPage::Tier1NetworkInfo => {
            reveal_strlit("tier1_network_info");
            reveal_strlit("tier1_network_info.html");
            if names_a_file("tier1_network_info"@) {
                lemma_end_of_file_name("tier1_network_info"@);
            }
            assert("tier1_network_info.html"@ =~= "tier1_network_info"@ + ".html"@);
        },
        DebugPage::EpochInfo => {
            reveal_strlit("epoch_info");
            reveal_strlit("epoch_info.html");
            if names_a_file("epoch_info"@) {
                lemma_end_of_file_name("epoch_info"@);
            }
            assert("epoch_info.html"@ =~= "epoch_info"@ + ".html"@);
        },
        DebugPage::EpochInfoCss => {
            reveal_strlit("epoch_info.css");
            assert(".css"@.is_suffix_of("epoch_info.css"@));
        },
        DebugPage::ChainNChunkInfo => {
            reveal_strlit("chain_n_chunk_info");
            reveal_strlit("chain_n_chunk_info.html");
            if names_a_file("chain_n_chunk_info"@) {
                lemma_end_of_file_name("chain_n_chunk_info"@);
            }
            assert("chain_n_chunk_info.html"@ =~= "chain_n_chunk_info"@ + ".html"@);
        },
        DebugPage::ChainNChunkInfoCss => {
            reveal_strlit("chain_n_chunk_info.css");
            assert(".css"@.is_suffix_of("chain_n_chunk_info.css"@));
        },
        DebugPage::Sync => {
            reveal_strlit("sync");
            reveal_strlit("sync.html");
            if names_a_file("sync"@) {
                lemma_end_of_file_name("sync"@);
            }
            assert("sync.html"@ =~= "sync"@ + ".html"@);
        },
        DebugPage::SyncCss => {
            reveal_strlit("sync.css");
            assert(".css"@.is_suffix_of("sync.css"@));
        },
        DebugPage::Validator => {
            reveal_strlit("validator");
            reveal_strlit("validator.html");
            if names_a_file("validator"@) {
                lemma_end_of_file_name("validator"@);
            }
            assert("validator.html"@ =~= "validator"@ + ".html"@);
        },
        DebugPage::ValidatorCss => {
            reveal_strlit("validator.css");
            assert(".css"@.is_suffix_of("validator.css"@));
        },
        DebugPage::SplitStore => {
            reveal_strlit("split_store");
            reveal_strlit("split_store.html");
            if names_a_file("split_store"@) {
                lemma_end_of_file_name("split_store"@);
            }
            assert("split_store.html"@ =~= "split_store"@ + ".html"@);
        },
    }
}

/// Where the content of a page is taken from.
#[derive(Debug, PartialEq, Eq)]
pub enum PageSource {
    /// A file of the directory that the configuration names.
    Directory { directory: String, file: &'static str },
    /// A file that is built in.
    BuiltIn { file: &'static str },
}

impl JsonRpcHandler {
    /// The directory that the file is read from, if the configuration names one.
    pub fn read_html_file_override(&self, html_file: &'static str) -> (source: PageSource)
        ensures
            source == (match self.debug_pages_src_path {
                Some(directory) => PageSource::Directory { directory, file: html_file },
                None => PageSource::BuiltIn { file: html_file },
            }),
    {
        match &self.debug_pages_src_path {
            Some(directory) => PageSource::Directory {
                directory: directory.clone(),
                file: html_file,
            },
            None => PageSource::BuiltIn { file: html_file },
        }
    }

    /// Where the page that lists the others is taken from.
    pub fn debug_html(&self) -> (source: PageSource)
        ensures
            match self.debug_pages_src_path {
                Some(path) => source matches PageSource::Directory { directory, file } && directory
                    == path && file@ == "debug.html"@,
                None => source matches PageSource::BuiltIn { file } && file@ == "debug.html"@,
            },
    {
        self.read_html_file_override("debug.html")
    }

    /// Where the page of a name is taken from, if there is one.
    pub fn display_debug_html(&self, page_name: &String) -> (source: Option<PageSource>)
        ensures
            forall|page: DebugPage| #[trigger]
                page.name() == page_name@ ==> match self.debug_pages_src_path {
                    Some(path) => source matches Some(PageSource::Directory { directory, file })
                        && directory == path && file@ == page.spec_file(),
                    None => source matches Some(PageSource::BuiltIn { file }) && file@
                        == page.spec_file(),
                },
            (forall|page: DebugPage| #[trigger] page.name() != page_name@) ==> source is None,
    {
        match DebugPage::of_name(page_name) {
            Some(page) => {
                proof {
                    assert forall|other: DebugPage| #[trigger]
                        other.name() == page_name@ implies other == page by {
                        law_page_names_are_distinct(other, page);
                    }
                }
                Some(self.read_html_file_override(page.file()))
            },
            None => None,
        }
    }
}

/// Why a file could not be read: where it was looked for, as it is shown, and the error in
/// its debug notation.
#[derive(Debug, PartialEq, Eq)]
pub struct FileError {
    pub path: String,
    pub error: String,
}

/// What a page shows: the file, or the reason why it could not be read.
pub fn page_content(read: Result<String, FileError>) -> (content: String)
    ensures
        match read {
            Ok(text) => content == text,
            Err(failure) => content@ == "Could not load path "@ + failure.path@ + ": "@
                + failure.error@,
        },
{
    match read {
        Ok(text) => text,
        Err(failure) => "Could not load path ".to_owned().concat(failure.path.as_str()).concat(
            ": ",
        ).concat(failure.error.as_str()),
    }
}

/// Where a page is taken from: the directory of the configuration where it names one, and what is
/// built in otherwise. A page is found exactly by the names of the table, in its own file.
pub proof fn law_where_pages_are_taken_from(
    handler: JsonRpcHandler,
    html_file: &'static str,
    source: PageSource,
    index: PageSource,
    page_name: String,
    found: Option<PageSource>,
)
    requires
        call_ensures(JsonRpcHandler::read_html_file_override, (&handler, html_file), source),
        call_ensures(JsonRpcHandler::debug_html, (&handler,), index),
        call_ensures(JsonRpcHandler::display_debug_html, (&handler, &page_name), found),
    ensures
        is_source_of(source, handler, html_file@),
        is_source_of(index, handler, "debug.html"@),
        found is Some <==> exists|page: DebugPage| #[trigger] page.name() == page_name@,
        found matches Some(taken) ==> exists|page: DebugPage| #[trigger]
            page.name() == page_name@ && is_source_of(taken, handler, page.spec_file()),
{
    if exists|page: DebugPage| #[trigger] page.name() == page_name@ {
        let page = choose|page: DebugPage| #[trigger] page.name() == page_name@;
        assert(page.name() == page_name@);
        assert(found is Some && is_source_of(found->0, handler, page.spec_file()));
    }
}

/// Whether the source is the file, where the handler takes files from.
pub open spec fn is_source_of(source: PageSource, handler: JsonRpcHandler, file: Seq<char>) -> bool {
    match source {
        PageSource::Directory { directory, file: taken } => handler.debug_pages_src_path == Some(
            directory,
        ) && taken@ == file,
        PageSource::BuiltIn { file: taken } => handler.debug_pages_src_path is None && taken@
            == file,
    }
}

/// A page shows the file as it was read. Where it could not be, the page names the path and tells
/// the error.
pub proof fn law_pages_show_their_file(read: Result<String, FileError>, content: String)
    requires
        call_ensures(page_content, (read,), content),
    ensures
        read matches Ok(text) ==> content@ == text@,
        read matches Err(failure) ==> content@ == "Could not load path "@ + failure.path@ + ": "@
            + failure.error@,
{
}

} // verus!
