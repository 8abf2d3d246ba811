//! The state of the views of the player: which view is shown, the file
//! browser with its history, and the YouTube search.

use vstd::prelude::*;

verus! {

/// Entries that a page key moves the selection by.
pub const PAGE_STEP: usize = 10;

/// The views of the application.
#[derive(Debug, Clone, Copy, PartialEq, Eq, Structural)]
pub enum AppView {
    /// The home screen.
    MainMenu,
    /// Video playback.
    Player,
    /// The file browser.
    FileBrowser,
    /// The YouTube search.
    YoutubeSearch,
    /// The settings.
    Settings,
}

/// An entry of the file browser.
#[derive(Debug, Clone)]
pub struct FileEntry {
    /// The path of the file.
    pub path: String,
    /// The name of the file.
    pub name: String,
    /// Whether it is a directory.
    pub is_dir: bool,
    /// Its size in bytes.
    pub size: u64,
    /// When it was last changed, in seconds since 1970.
    pub modified: Option<u64>,
}

/// The file browser.
#[derive(Debug)]
pub struct FileBrowser {
    /// The directory shown.
    pub current_dir: String,
    /// The files in it.
    pub files: Vec<FileEntry>,
    /// The index of the selected file.
    pub selected: Option<usize>,
    /// The directories left behind, the last one at the end.
    pub history: Vec<String>,
    /// The directories gone back from, the last one at the end.
    pub future: Vec<String>,
    /// The filter on file names.
    pub filter: String,
}

/// A result of a YouTube search.
#[derive(Debug, Clone)]
pub struct YoutubeResult {
    /// The id of the video.
    pub id: String,
    /// Its title.
    pub title: String,
    /// Its duration, as text.
    pub duration: String,
    /// The address of its thumbnail.
    pub thumbnail: Option<String>,
    /// The name of its channel.
    pub channel: String,
}

/// The YouTube search.
#[derive(Debug)]
pub struct YoutubeSearch {
    /// What is searched for.
    pub query: String,
    /// What was found.
    pub results: Vec<YoutubeResult>,
    /// The index of the selected result.
    pub selected: Option<usize>,
    /// Whether a search is under way.
    pub searching: bool,
}

/// The selection after a step up in a list.
pub open spec fn moved_up(selected: Option<usize>) -> Option<usize> {
    match selected {
        Some(index) => if index > 0 {
            Some((index - 1) as usize)
        } else {
            Some(index)
        },
        None => None,
    }
}

/// The selection after a step down in a list of `len` entries.
pub open spec fn moved_down(selected: Option<usize>, len: nat) -> Option<usize> {
    match selected {
        Some(index) => if index + 1 < len {
            Some((index + 1) as usize)
        } else {
            Some(index)
        },
        None => None,
    }
}

/// The selection after a page up.
pub open spec fn paged_up(selected: Option<usize>) -> Option<usize> {
    match selected {
        Some(index) => if index >= PAGE_STEP {
            Some((index - PAGE_STEP) as usize)
        } else {
            Some(0usize)
        },
        None => None,
    }
}

/// The selection after a page down in a list of `len` entries: ten entries
/// on, but not past the last one.
pub open spec fn paged_down(selected: Option<usize>, len: nat) -> Option<usize> {
    match selected {
        Some(index) => {
            let last = if len > 0 {
                len - 1
            } else {
                0
            };
            if index + PAGE_STEP <= last {
                Some((index + PAGE_STEP) as usize)
            } else {
                Some(last as usize)
            }
        },
        None => None,
    }
}

/// Moves a selection one entry up.
pub fn select_up(selected: Option<usize>) -> (out: Option<usize>)
    ensures
        out == moved_up(selected),
{
    match selected {
        Some(index) => if index > 0 {
            Some(index - 1)
        } else {
            Some(index)
        },
        None => None,
    }
}

/// Moves a selection one entry down in a list of `len` entries.
pub fn select_down(selected: Option<usize>, len: usize) -> (out: Option<usize>)
    ensures
        out == moved_down(selected, len as nat),
{
    match selected {
        Some(index) => if index < len && index + 1 < len {
            Some(index + 1)
        } else {
            Some(index)
        },
        None => None,
    }
}

/// Moves a selection one page up.
pub fn select_page_up(selected: Option<usize>) -> (out: Option<usize>)
    ensures
        out == paged_up(selected),
{
    match selected {
        Some(index) => if index >= PAGE_STEP {
            Some(index - PAGE_STEP)
        } else {
            Some(0)
        },
        None => None,
    }
}

/// Moves a selection one page down in a list of `len` entries.
pub fn select_page_down(selected: Option<usize>, len: usize) -> (out: Option<usize>)
    ensures
        out == paged_down(selected, len as nat),
{
    match selected {
        Some(index) => {
            let last = if len > 0 {
                len - 1
            } else {
                0
            };
            if index <= last && last - index >= PAGE_STEP {
                Some(index + PAGE_STEP)
            } else {
                Some(last)
            }
        },
        None => None,
    }
}

impl FileBrowser {
    /// A browser that shows a directory, with no files listed yet.
    pub fn new(current_dir: String) -> (out: FileBrowser)
        ensures
            out.current_dir == current_dir,
            out.files@.len() == 0,
            out.selected is None,
            out.history@.len() == 0,
            out.future@.len() == 0,
            out.filter@.len() == 0,
    {
        FileBrowser {
            current_dir,
            files: Vec::new(),
            selected: None,
            history: Vec::new(),
            future: Vec::new(),
            filter: String::new(),
        }
    }

    /// Shows a list of files. The first one is selected, if there is one.
    pub fn set_files(&mut self, files: Vec<FileEntry>)
        ensures
            final(self).files == files,
            final(self).selected == (if files@.len() == 0 {
                None
            } else {
                Some(0usize)
            }),
            final(self).current_dir == old(self).current_dir,
            final(self).history == old(self).history,
            final(self).future == old(self).future,
            final(self).filter == old(self).filter,
    {
        self.selected = if files.len() == 0 {
            None
        } else {
            Some(0)
        };
        self.files = files;
    }

    /// Goes to a directory: the one shown joins the history, and there is
    /// nothing to go forward to any more.
    pub fn navigate_to(&mut self, path: String)
        ensures
            final(self).current_dir == path,
            final(self).history@ == old(self).history@.push(old(self).current_dir),
            final(self).future@.len() == 0,
            final(self).files == old(self).files,
            final(self).selected == old(self).selected,
            final(self).filter == old(self).filter,
    {
        self.history.push(self.current_dir.clone());
        self.future.clear();
        self.current_dir = path;
    }

    /// Goes back to the directory left last, if there is one. The one shown
    /// can then be gone forward to.
    pub fn navigate_back(&mut self) -> (moved: bool)
        ensures
            moved == (old(self).history@.len() > 0),
            moved ==> {
                &&& final(self).current_dir == old(self).history@.last()
                &&& final(self).history@ == old(self).history@.drop_last()
                &&& final(self).future@ == old(self).future@.push(old(self).current_dir)
            },
            !moved ==> {
                &&& final(self).current_dir == old(self).current_dir
                &&& final(self).history@ == old(self).history@
                &&& final(self).future@ == old(self).future@
            },
            final(self).files == old(self).files,
            final(self).selected == old(self).selected,
            final(self).filter == old(self).filter,
    {
        match self.history.pop() {
            Some(previous) => {
                self.future.push(self.current_dir.clone());
                self.current_dir = previous;
                true
            },
            None => false,
        }
    }

    /// Goes forward to the directory gone back from last, if there is one.
    pub fn navigate_forward(&mut self) -> (moved: bool)
        ensures
            moved == (old(self).future@.len() > 0),
            moved ==> {
                &&& final(self).current_dir == old(self).future@.last()
                &&& final(self).future@ == old(self).future@.drop_last()
                &&& final(self).history@ == old(self).history@.push(old(self).current_dir)
            },
            !moved ==> {
                &&& final(self).current_dir == old(self).current_dir
                &&& final(self).history@ == old(self).history@
                &&& final(self).future@ == old(self).future@
            },
            final(self).files == old(self).files,
            final(self).selected == old(self).selected,
            final(self).filter == old(self).filter,
    {
        match self.future.pop() {
            Some(next) => {
                self.history.push(self.current_dir.clone());
                self.current_dir = next;
                true
            },
            None => false,
        }
    }
}

/// Going back after going somewhere leads to where one was, and going
/// forward again leads to where one went: histories are stacks.
pub proof fn lemma_back_undoes_navigation(history: Seq<String>, current: String)
    ensures
        history.push(current).last() == current,
        history.push(current).drop_last() == history,
{
    assert(history.push(current).drop_last() =~= history);
}

impl YoutubeSearch {
    /// A search with nothing asked and nothing found.
    pub fn new() -> (out: YoutubeSearch)
        ensures
            out.query@.len() == 0,
            out.results@.len() == 0,
            out.selected is None,
            !out.searching,
    {
        YoutubeSearch { query: String::new(), results: Vec::new(), selected: None, searching: false }
    }
}

} // verus!
