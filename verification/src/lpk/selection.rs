//! The archives that a scan found, and which of them are chosen for
//! extraction.

use crate::lpk::name_map::{has_key, value_of, with_pair, NameMap};
use crate::strings::{concat3, decimal, to_decimal};
use vstd::prelude::*;
use vstd::string::StringExecFns;

verus! {

/// The texts of a list of strings.
pub open spec fn texts(items: Seq<String>) -> Seq<Seq<char>> {
    items.map_values(|item: String| item@)
}

/// A path is chosen: the flags hold it, with the flag set.
pub open spec fn is_chosen(flags: Seq<(Seq<char>, bool)>, path: Seq<char>) -> bool {
    has_key(flags, path) && value_of(flags, path)
}

/// The flags with every one of `files` put to `value`, in their order.
pub open spec fn all_flagged(
    flags: Seq<(Seq<char>, bool)>,
    files: Seq<Seq<char>>,
    value: bool,
) -> Seq<(Seq<char>, bool)>
    decreases files.len(),
{
    if files.len() == 0 {
        flags
    } else {
        with_pair(all_flagged(flags, files.drop_last(), value), files.last(), value)
    }
}

/// Those of `files` that are chosen, in their order.
pub open spec fn chosen_of(files: Seq<Seq<char>>, flags: Seq<(Seq<char>, bool)>) -> Seq<Seq<char>>
    decreases files.len(),
{
    if files.len() == 0 {
        Seq::empty()
    } else {
        let before = chosen_of(files.drop_last(), flags);
        if is_chosen(flags, files.last()) {
            before.push(files.last())
        } else {
            before
        }
    }
}

/// The text that tells how many archives a scan found.
pub open spec fn found_text(count: nat) -> Seq<char> {
    "找到 "@ + decimal(count) + " 个LPK文件"@
}

/// The text that tells how an extraction went.
pub open spec fn summary_text(successes: nat, failures: nat) -> Seq<char> {
    "解压完成: "@ + decimal(successes) + " 成功, "@ + decimal(failures) + " 失败"@
}

/// The archives that were found, and a flag for each path that was ever
/// chosen or put aside.
#[derive(Debug)]
pub struct Selection {
    files: Vec<String>,
    flags: NameMap<bool>,
}

impl Selection {
    /// The paths of the archives that were found, in the order of the scan.
    pub closed spec fn files(&self) -> Seq<Seq<char>> {
        texts(self.files@)
    }

    /// The flags of the paths.
    pub closed spec fn flags(&self) -> Seq<(Seq<char>, bool)> {
        self.flags.entries()
    }

    /// No path has two flags.
    pub closed spec fn wf(&self) -> bool {
        self.flags.wf()
    }

    /// Nothing was found and nothing is chosen.
    pub fn new() -> (selection: Self)
        ensures
            selection.wf(),
            selection.files().len() == 0,
            selection.flags().len() == 0,
    {
        let selection = Selection { files: Vec::new(), flags: NameMap::new() };
        assert(selection.files() =~= Seq::<Seq<char>>::empty());
        selection
    }

    /// Takes the archives of a new scan: the old flags go, and every archive
    /// that was found is chosen.
    pub fn scan(files: Vec<String>) -> (selection: Self)
        ensures
            selection.wf(),
            selection.files() == texts(files@),
            selection.flags() == all_flagged(Seq::empty(), texts(files@), true),
    {
        let mut selection = Selection { files, flags: NameMap::new() };
        assert(selection.flags() =~= Seq::<(Seq<char>, bool)>::empty());
        selection.select_all(true);
        selection
    }

    /// The number of archives that were found.
    pub fn len(&self) -> (len: usize)
        ensures
            len == self.files().len(),
    {
        self.files.len()
    }

    /// Whether a path is chosen.
    pub fn is_selected(&self, path: &str) -> (r: bool)
        ensures
            r == is_chosen(self.flags(), path@),
    {
        match self.flags.get(path) {
            Some(flag) => *flag,
            None => false,
        }
    }

    /// Turns the flag of a path over. A path without a flag counts as not
    /// chosen, and is chosen afterwards.
    pub fn toggle_file_selection(&mut self, path: String)
        requires
            old(self).wf(),
        ensures
            final(self).wf(),
            final(self).files() == old(self).files(),
            final(self).flags() == with_pair(
                old(self).flags(),
                path@,
                !is_chosen(old(self).flags(), path@),
            ),
    {
        let current = self.is_selected(path.as_str());
        self.flags.insert(path, !current);
    }

    /// Chooses every archive that was found, or puts every one aside.
    pub fn select_all(&mut self, select: bool)
        requires
            old(self).wf(),
        ensures
            final(self).wf(),
            final(self).files() == old(self).files(),
            final(self).flags() == all_flagged(old(self).flags(), old(self).files(), select),
    {
        let ghost start = self.flags();
        let mut i: usize = 0;
        while i < self.files.len()
            invariant
                i <= self.files.len(),
                self.wf(),
                self.files() == old(self).files(),
                self.flags() == all_flagged(start, self.files().take(i as int), select),
            decreases self.files.len() - i,
        {
            let path = self.files[i].clone();
            proof {
                assert(self.files().take(i + 1).drop_last() =~= self.files().take(i as int));
                assert(self.files().take(i + 1).last() == path@);
            }
            self.flags.insert(path, select);
            i = i + 1;
        }
        assert(self.files().take(self.files().len() as int) =~= self.files());
    }

    /// The archives that are chosen, in the order of the scan.
    pub fn selected(&self) -> (chosen: Vec<String>)
        ensures
            texts(chosen@) == chosen_of(self.files(), self.flags()),
    {
        let mut chosen: Vec<String> = Vec::new();
        let mut i: usize = 0;
        assert(texts(chosen@) =~= Seq::<Seq<char>>::empty());
        while i < self.files.len()
            invariant
                i <= self.files.len(),
                texts(chosen@) == chosen_of(self.files().take(i as int), self.flags()),
            decreases self.files.len() - i,
        {
            let ghost before = chosen@;
            proof {
                assert(self.files().take(i + 1).drop_last() =~= self.files().take(i as int));
                assert(self.files().take(i + 1).last() == self.files@[i as int]@);
            }
            if self.is_selected(self.files[i].as_str()) {
                let path = self.files[i].clone();
                chosen.push(path);
                assert(texts(chosen@) =~= texts(before).push(path@));
            }
            i = i + 1;
        }
        assert(self.files().take(self.files().len() as int) =~= self.files());
        chosen
    }

    /// Tells how many archives a scan found.
    pub fn found_message(count: usize) -> (text: String)
        ensures
            text@ == found_text(count as nat),
    {
        concat3("找到 ", to_decimal(count as u64).as_str(), " 个LPK文件")
    }

    /// Tells how an extraction went.
    pub fn summary(successes: usize, failures: usize) -> (text: String)
        ensures
            text@ == summary_text(successes as nat, failures as nat),
    {
        let mut text = concat3("解压完成: ", to_decimal(successes as u64).as_str(), " 成功, ");
        text.append(to_decimal(failures as u64).as_str());
        text.append(" 失败");
        text
    }
}

} // verus!
