//! How neovim is started.
use std::time::Duration;
use vstd::prelude::*;

verus! {

/// The command line options that concern neovim.
#[derive(Debug)]
pub struct ShellOptions {
    nvim_bin_path: Option<String>,
    open_paths: Vec<String>,
    timeout: Option<Duration>,
}

/// What [`ShellOptions`] say.
pub struct ShellOptionsView {
    /// The program to run; without one, the program found by its usual name.
    pub nvim_bin_path: Option<Seq<char>>,
    /// The files to open at the start.
    pub open_paths: Seq<Seq<char>>,
    /// How long neovim may take to answer a request.
    pub timeout: Option<Duration>,
}

/// The view of an optional text.
pub open spec fn optional_text(text: Option<String>) -> Option<Seq<char>> {
    match text {
        Some(s) => Some(s@),
        None => None,
    }
}

/// The views of texts.
pub open spec fn texts(list: Seq<String>) -> Seq<Seq<char>> {
    list.map_values(|s: String| s@)
}

impl View for ShellOptions {
    type V = ShellOptionsView;

    closed spec fn view(&self) -> ShellOptionsView {
        ShellOptionsView {
            nvim_bin_path: optional_text(self.nvim_bin_path),
            open_paths: texts(self.open_paths@),
            timeout: self.timeout,
        }
    }
}

impl ShellOptions {
    pub fn new(
        nvim_bin_path: Option<String>,
        open_paths: Vec<String>,
        timeout: Option<Duration>,
    ) -> (options: Self)
        ensures
            options@ == (ShellOptionsView {
                nvim_bin_path: optional_text(nvim_bin_path),
                open_paths: texts(open_paths@),
                timeout,
            }),
    {
        ShellOptions { nvim_bin_path, open_paths, timeout }
    }

    /// The three options, in the order in which [`ShellOptions::new`] takes them.
    pub fn into_parts(self) -> (parts: (Option<String>, Vec<String>, Option<Duration>))
        ensures
            optional_text(parts.0) == self@.nvim_bin_path,
            texts(parts.1@) == self@.open_paths,
            parts.2 == self@.timeout,
    {
        (self.nvim_bin_path, self.open_paths, self.timeout)
    }
}

impl Clone for ShellOptions {
    fn clone(&self) -> (copy: Self)
        ensures
            copy@ == self@,
    {
        let nvim_bin_path = match &self.nvim_bin_path {
            Some(path) => Some(path.clone()),
            None => None,
        };
        let mut open_paths: Vec<String> = Vec::new();
        let mut i: usize = 0;
        while i < self.open_paths.len()
            invariant
                i <= self.open_paths.len(),
                open_paths@ =~= self.open_paths@.take(i as int),
            decreases self.open_paths.len() - i,
        {
            open_paths.push(self.open_paths[i].clone());
            i = i + 1;
        }
        assert(open_paths@ =~= self.open_paths@);
        ShellOptions { nvim_bin_path, open_paths, timeout: self.timeout }
    }
}

} // verus!
