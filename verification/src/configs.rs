//! The settings of the program: what a configuration file may say, and what
//! holds where it says nothing.
use vstd::prelude::*;
use vstd::string::*;
use crate::text::{opt_view, str_equal};

verus! {

/// The settings as a configuration file gives them: each may be missing.
#[derive(Debug, Clone, PartialEq)]
pub struct ReadSettings {
    pub default_editor: Option<String>,
    pub ls_display_block: Option<usize>,
    pub print_color_primary: Option<[u8; 3]>,
    pub print_color_secondary: Option<[u8; 3]>,
    pub verbose: Option<bool>,
    pub prioritize_shortcuts: Option<bool>,
    pub always_jump: Option<bool>,
    pub search_match_prefix: Option<String>,
    pub search_match_suffix: Option<String>,
}

impl ReadSettings {
    /// Settings of which none is given.
    pub open spec fn spec_empty() -> ReadSettings {
        ReadSettings {
            default_editor: None,
            ls_display_block: None,
            print_color_primary: None,
            print_color_secondary: None,
            verbose: None,
            prioritize_shortcuts: None,
            always_jump: None,
            search_match_prefix: None,
            search_match_suffix: None,
        }
    }
}

impl Default for ReadSettings {
    fn default() -> (r: ReadSettings)
        ensures
            r == ReadSettings::spec_empty(),
    {
        ReadSettings {
            default_editor: None,
            ls_display_block: None,
            print_color_primary: None,
            print_color_secondary: None,
            verbose: None,
            prioritize_shortcuts: None,
            always_jump: None,
            search_match_prefix: None,
            search_match_suffix: None,
        }
    }
}

/// A configuration file: its settings, and the editor for each file
/// extension, as pairs of extension and editor.
#[derive(Debug, Clone, PartialEq)]
pub struct ReadConfig {
    pub settings: Option<ReadSettings>,
    pub editors: Option<Vec<(String, String)>>,
}

impl Default for ReadConfig {
    fn default() -> (r: ReadConfig)
        ensures
            r.settings is None,
            r.editors is None,
    {
        ReadConfig { settings: None, editors: None }
    }
}

impl ReadConfig {
    /// A configuration with both of its parts present: the given one, or an
    /// empty one where the file had none.
    pub fn new(settings: Option<ReadSettings>, editors: Option<Vec<(String, String)>>) -> (r:
        ReadConfig)
        ensures
            r.settings == Some(
                match settings {
                    Some(s) => s,
                    None => ReadSettings::spec_empty(),
                },
            ),
            r.editors is Some,
            r.editors->0@ == (match editors {
                Some(e) => e@,
                None => Seq::<(String, String)>::empty(),
            }),
    {
        let read_settings = match settings {
            Some(s) => s,
            None => ReadSettings::default(),
        };
        let read_editors = match editors {
            Some(e) => e,
            None => Vec::new(),
        };
        ReadConfig { settings: Some(read_settings), editors: Some(read_editors) }
    }
}

/// The settings in force. No extension has more than one editor: see
/// `Configs::wf`.
#[derive(Debug, Clone, PartialEq)]
pub struct Configs {
    pub default_editor: String,
    pub ls_display_block: usize,
    pub print_color_primary: [u8; 3],
    pub print_color_secondary: [u8; 3],
    pub verbose: bool,
    pub prioritize_shortcuts: bool,
    pub always_jump: bool,
    pub search_match_prefix: String,
    pub search_match_suffix: String,
    pub editors: Vec<(String, String)>,
}

/// The editor where neither the file nor the system names one.
pub open spec fn spec_fallback_editor(windows: bool) -> Seq<char> {
    if windows {
        "notepad"@
    } else {
        "vi"@
    }
}

/// The editor in force: the file's, else the system's, else the fallback.
pub open spec fn spec_default_editor(
    from_file: Option<Seq<char>>,
    system: Option<Seq<char>>,
    windows: bool,
) -> Seq<char> {
    match from_file {
        Some(e) => e,
        None => match system {
            Some(e) => e,
            None => spec_fallback_editor(windows),
        },
    }
}

/// The editor that `editors` gives for the extension `ext`: that of the
/// first pair with this extension.
pub open spec fn spec_lookup_editor(editors: Seq<(String, String)>, ext: Seq<char>) -> Option<
    Seq<char>,
>
    decreases editors.len(),
{
    if editors.len() == 0 {
        None
    } else if editors[0].0@ == ext {
        Some(editors[0].1@)
    } else {
        spec_lookup_editor(editors.skip(1), ext)
    }
}

/// Some pair of `editors` is for the extension `ext`.
pub open spec fn spec_has_extension(editors: Seq<(String, String)>, ext: Seq<char>) -> bool {
    exists|i: int| 0 <= i < editors.len() && (#[trigger] editors[i]).0@ == ext
}

/// No two pairs of `editors` are for the same extension.
pub open spec fn distinct_extensions(editors: Seq<(String, String)>) -> bool {
    forall|i: int, j: int|
        0 <= i < j < editors.len() ==> (#[trigger] editors[i]).0@ != (#[trigger] editors[j]).0@
}

/// `editors` without the pairs whose extension an earlier pair already has.
pub open spec fn spec_first_of_each(editors: Seq<(String, String)>) -> Seq<(String, String)>
    decreases editors.len(),
{
    if editors.len() == 0 {
        editors
    } else {
        let front = spec_first_of_each(editors.drop_last());
        if spec_has_extension(front, editors.last().0@) {
            front
        } else {
            front.push(editors.last())
        }
    }
}

/// What is kept of `editors` has each extension once.
pub proof fn first_of_each_is_distinct(editors: Seq<(String, String)>)
    ensures
        distinct_extensions(spec_first_of_each(editors)),
    decreases editors.len(),
{
    if editors.len() > 0 {
        first_of_each_is_distinct(editors.drop_last());
    }
}

/// An extension has an editor exactly where a pair is for it.
pub proof fn lookup_finds_extension(editors: Seq<(String, String)>, ext: Seq<char>)
    ensures
        spec_lookup_editor(editors, ext) is Some <==> spec_has_extension(editors, ext),
    decreases editors.len(),
{
    if editors.len() > 0 && editors[0].0@ != ext {
        let rest = editors.skip(1);
        lookup_finds_extension(rest, ext);
        if spec_has_extension(rest, ext) {
            let i = choose|i: int| 0 <= i < rest.len() && (#[trigger] rest[i]).0@ == ext;
            assert(editors[i + 1].0@ == ext);
        }
        if spec_has_extension(editors, ext) {
            let i = choose|i: int| 0 <= i < editors.len() && (#[trigger] editors[i]).0@ == ext;
            assert(rest[i - 1].0@ == ext);
        }
    }
}

/// A pair behind the others is asked only where none of the others answers.
pub proof fn lookup_after_push(editors: Seq<(String, String)>, pair: (String, String), ext: Seq<char>)
    ensures
        spec_lookup_editor(editors.push(pair), ext) == (match spec_lookup_editor(editors, ext) {
            Some(editor) => Some(editor),
            None => if pair.0@ == ext {
                Some(pair.1@)
            } else {
                None
            },
        }),
    decreases editors.len(),
{
    let longer = editors.push(pair);
    if editors.len() == 0 {
        assert(longer[0] == pair);
        assert(spec_lookup_editor(longer.skip(1), ext) is None);
    } else {
        assert(longer[0] == editors[0]);
        assert(longer.skip(1) =~= editors.skip(1).push(pair));
        lookup_after_push(editors.skip(1), pair, ext);
    }
}

/// Dropping the later pairs of an extension changes no lookup.
pub proof fn first_of_each_keeps_lookups(editors: Seq<(String, String)>, ext: Seq<char>)
    ensures
        spec_lookup_editor(spec_first_of_each(editors), ext) == spec_lookup_editor(editors, ext),
    decreases editors.len(),
{
    if editors.len() > 0 {
        let front = editors.drop_last();
        let kept = spec_first_of_each(front);
        first_of_each_keeps_lookups(front, ext);
        first_of_each_keeps_lookups(front, editors.last().0@);
        assert(editors =~= front.push(editors.last()));
        lookup_after_push(front, editors.last(), ext);
        lookup_after_push(kept, editors.last(), ext);
        lookup_finds_extension(kept, editors.last().0@);
    }
}

/// The color of names in listings where the file gives none.
pub fn default_color_primary() -> (r: [u8; 3])
    ensures
        r@ == seq![51u8, 255u8, 255u8],
{
    let r: [u8; 3] = [51, 255, 255];
    r
}

/// The color of locations in listings where the file gives none.
pub fn default_color_secondary() -> (r: [u8; 3])
    ensures
        r@ == seq![51u8, 255u8, 153u8],
{
    let r: [u8; 3] = [51, 255, 153];
    r
}

/// Whether some pair of `editors` is for the extension `ext`.
pub fn has_extension(editors: &Vec<(String, String)>, ext: &str) -> (r: bool)
    ensures
        r == spec_has_extension(editors@, ext@),
{
    let mut i: usize = 0;
    while i < editors.len()
        invariant
            i <= editors@.len(),
            forall|j: int| 0 <= j < i ==> (#[trigger] editors@[j]).0@ != ext@,
        decreases editors@.len() - i,
    {
        if str_equal(editors[i].0.as_str(), ext) {
            return true;
        }
        i += 1;
    }
    false
}

/// `editors` without the pairs whose extension an earlier pair already has.
pub fn first_of_each(editors: &Vec<(String, String)>) -> (r: Vec<(String, String)>)
    ensures
        r@ == spec_first_of_each(editors@),
        distinct_extensions(r@),
{
    let mut out: Vec<(String, String)> = Vec::new();
    let mut i: usize = 0;
    assert(editors@.subrange(0, 0) =~= Seq::<(String, String)>::empty());
    while i < editors.len()
        invariant
            i <= editors@.len(),
            out@ == spec_first_of_each(editors@.subrange(0, i as int)),
        decreases editors@.len() - i,
    {
        assert(editors@.subrange(0, i + 1).drop_last() =~= editors@.subrange(0, i as int));
        if !has_extension(&out, editors[i].0.as_str()) {
            let ext = editors[i].0.clone();
            let editor = editors[i].1.clone();
            out.push((ext, editor));
        }
        i += 1;
    }
    assert(editors@.subrange(0, editors@.len() as int) =~= editors@);
    proof {
        first_of_each_is_distinct(editors@);
    }
    out
}

impl Configs {
    /// The settings are well formed: no extension has more than one editor.
    pub open spec fn wf(&self) -> bool {
        distinct_extensions(self.editors@)
    }

    /// The settings in force, given what the configuration file says, the
    /// editor the system names, and whether this is Windows. What the file
    /// leaves out is: the system's editor, else `notepad` on Windows and `vi`
    /// elsewhere; no display block; the two default colors; not verbose;
    /// the filesystem before shortcuts; no jump with an edit; `*` around a
    /// search; no editor for any extension. Where the file gives an
    /// extension more than once, its first editor counts.
    pub fn new(read: ReadConfig, system_editor: Option<String>, windows: bool) -> (r: Configs)
        ensures
            ({
                let s = match read.settings {
                    Some(s) => s,
                    None => ReadSettings::spec_empty(),
                };
                &&& r.default_editor@ == spec_default_editor(
                    opt_view(s.default_editor),
                    opt_view(system_editor),
                    windows,
                )
                &&& r.ls_display_block == (match s.ls_display_block {
                    Some(n) => n,
                    None => 0,
                })
                &&& r.print_color_primary@ == (match s.print_color_primary {
                    Some(c) => c@,
                    None => seq![51u8, 255u8, 255u8],
                })
                &&& r.print_color_secondary@ == (match s.print_color_secondary {
                    Some(c) => c@,
                    None => seq![51u8, 255u8, 153u8],
                })
                &&& r.verbose == (match s.verbose {
                    Some(b) => b,
                    None => false,
                })
                &&& r.prioritize_shortcuts == (match s.prioritize_shortcuts {
                    Some(b) => b,
                    None => false,
                })
                &&& r.always_jump == (match s.always_jump {
                    Some(b) => b,
                    None => false,
                })
                &&& r.search_match_prefix@ == (match s.search_match_prefix {
                    Some(p) => p@,
                    None => "*"@,
                })
                &&& r.search_match_suffix@ == (match s.search_match_suffix {
                    Some(p) => p@,
                    None => "*"@,
                })
                &&& r.editors@ == spec_first_of_each(
                    match read.editors {
                        Some(e) => e@,
                        None => Seq::<(String, String)>::empty(),
                    },
                )
            }),
            r.wf(),
    {
        let settings = match read.settings {
            Some(s) => s,
            None => ReadSettings::default(),
        };
        let default_editor = match settings.default_editor {
            Some(editor) => editor,
            None => match system_editor {
                Some(sys_editor) => sys_editor,
                None => {
                    if windows {
                        "notepad".to_owned()
                    } else {
                        "vi".to_owned()
                    }
                },
            },
        };
        let ls_display_block = match settings.ls_display_block {
            Some(n) => n,
            None => 0,
        };
        let print_color_primary = match settings.print_color_primary {
            Some(c) => c,
            None => default_color_primary(),
        };
        let print_color_secondary = match settings.print_color_secondary {
            Some(c) => c,
            None => default_color_secondary(),
        };
        let verbose = match settings.verbose {
            Some(b) => b,
            None => false,
        };
        let prioritize_shortcuts = match settings.prioritize_shortcuts {
            Some(b) => b,
            None => false,
        };
        let always_jump = match settings.always_jump {
            Some(b) => b,
            None => false,
        };
        let search_match_prefix = match settings.search_match_prefix {
            Some(p) => p,
            None => "*".to_owned(),
        };
        let search_match_suffix = match settings.search_match_suffix {
            Some(p) => p,
            None => "*".to_owned(),
        };
        let editors = match read.editors {
            Some(e) => first_of_each(&e),
            None => Vec::new(),
        };
        Configs {
            default_editor,
            ls_display_block,
            print_color_primary,
            print_color_secondary,
            verbose,
            prioritize_shortcuts,
            always_jump,
            search_match_prefix,
            search_match_suffix,
            editors,
        }
    }

    /// The editor for files with the extension `ext`, if one is set.
    pub fn lookup_editor(&self, ext: &str) -> (r: Option<String>)
        ensures
            opt_view(r) == spec_lookup_editor(self.editors@, ext@),
    {
        let mut i: usize = 0;
        assert(self.editors@.skip(0) =~= self.editors@);
        while i < self.editors.len()
            invariant
                i <= self.editors@.len(),
                spec_lookup_editor(self.editors@.skip(i as int), ext@) == spec_lookup_editor(
                    self.editors@,
                    ext@,
                ),
            decreases self.editors@.len() - i,
        {
            assert(self.editors@.skip(i as int).skip(1) =~= self.editors@.skip(i + 1));
            if str_equal(self.editors[i].0.as_str(), ext) {
                return Some(self.editors[i].1.clone());
            }
            i += 1;
        }
        None
    }
}

} // verus!
