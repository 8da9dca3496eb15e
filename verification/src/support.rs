//! The catalog of subjects a run can check: the supported languages, their
//! display names, the names the setup menu offers, and the selection of
//! languages a configuration asks for.

use vstd::prelude::*;

verus! {

/// A language a project under check can be written in.
#[derive(Clone, Copy, PartialEq, Eq, Structural, Debug)]
pub enum Language {
    Rust,
    JavaScript,
    TypeScript,
    Go,
    D,
    Python,
    Php,
    Java,
    Kotlin,
    Swift,
    Scala,
    Ruby,
    Perl,
    R,
    Haskell,
    Lua,
    ObjectiveC,
    C,
    Cpp,
    Nim,
    Crystal,
    FSharp,
    Dart,
    Elixir,
    Bash,
    Zsh,
    Fish,
    Unknown,
}

/// Display name of a language: the text used for its report row, its capture
/// directory and the configuration entry that selects it.
pub open spec fn label_of(l: Language) -> Seq<char> {
    match l {
        Language::Rust => "Rust"@,
        Language::JavaScript => "JavaScript"@,
        Language::TypeScript => "TypeScript"@,
        Language::Go => "Go"@,
        Language::D => "D"@,
        Language::Python => "Python"@,
        Language::Php => "Php"@,
        Language::Java => "Java"@,
        Language::Kotlin => "Kotlin"@,
        Language::Swift => "Swift"@,
        Language::Scala => "Scala"@,
        Language::Ruby => "Ruby"@,
        Language::Perl => "Perl"@,
        Language::R => "R"@,
        Language::Haskell => "Haskell"@,
        Language::Lua => "Lua"@,
        Language::ObjectiveC => "ObjectiveC"@,
        Language::C => "C"@,
        Language::Cpp => "Cpp"@,
        Language::Nim => "Nim"@,
        Language::Crystal => "Crystal"@,
        Language::FSharp => "FSharp"@,
        Language::Dart => "Dart"@,
        Language::Elixir => "Elixir"@,
        Language::Bash => "Bash"@,
        Language::Zsh => "Zsh"@,
        Language::Fish => "Fish"@,
        Language::Unknown => "Unknown"@,
    }
}

/// Name of a language in the setup menu. These differ from the display names
/// in casing for a few languages; the unknown language has no menu entry.
pub open spec fn menu_name_of(l: Language) -> Seq<char> {
    match l {
        Language::Rust => "Rust"@,
        Language::JavaScript => "Javascript"@,
        Language::TypeScript => "TypeScript"@,
        Language::Go => "Go"@,
        Language::D => "D"@,
        Language::Python => "Python"@,
        Language::Php => "Php"@,
        Language::Java => "Java"@,
        Language::Kotlin => "Kotlin"@,
        Language::Swift => "Swift"@,
        Language::Scala => "Scala"@,
        Language::Ruby => "Ruby"@,
        Language::Perl => "Perl"@,
        Language::R => "R"@,
        Language::Haskell => "Haskell"@,
        Language::Lua => "Lua"@,
        Language::ObjectiveC => "ObjectiveC"@,
        Language::C => "C"@,
        Language::Cpp => "Cpp"@,
        Language::Nim => "Nim"@,
        Language::Crystal => "Crystal"@,
        Language::FSharp => "Fsharp"@,
        Language::Dart => "Dart"@,
        Language::Elixir => "Elixir"@,
        Language::Bash => "Bash"@,
        Language::Zsh => "Zsh"@,
        Language::Fish => "Fish"@,
        Language::Unknown => ""@,
    }
}

/// The supported languages, in the fixed order every menu, report and run
/// uses. The unknown language is not among them.
pub open spec fn supported_languages() -> Seq<Language> {
    seq![
        Language::Rust,
        Language::JavaScript,
        Language::TypeScript,
        Language::Go,
        Language::D,
        Language::Python,
        Language::Php,
        Language::Java,
        Language::Kotlin,
        Language::Swift,
        Language::Scala,
        Language::Ruby,
        Language::Perl,
        Language::R,
        Language::Haskell,
        Language::Lua,
        Language::ObjectiveC,
        Language::C,
        Language::Cpp,
        Language::Nim,
        Language::Crystal,
        Language::FSharp,
        Language::Dart,
        Language::Elixir,
        Language::Bash,
        Language::Zsh,
        Language::Fish,
    ]
}

impl Language {
    /// Display name of this language, as text.
    pub fn label(&self) -> (r: &'static str)
        ensures
            r@ == label_of(*self),
    {
        match self {
            Language::Rust => "Rust",
            Language::JavaScript => "JavaScript",
            Language::TypeScript => "TypeScript",
            Language::Go => "Go",
            Language::D => "D",
            Language::Python => "Python",
            Language::Php => "Php",
            Language::Java => "Java",
            Language::Kotlin => "Kotlin",
            Language::Swift => "Swift",
            Language::Scala => "Scala",
            Language::Ruby => "Ruby",
            Language::Perl => "Perl",
            Language::R => "R",
            Language::Haskell => "Haskell",
            Language::Lua => "Lua",
            Language::ObjectiveC => "ObjectiveC",
            Language::C => "C",
            Language::Cpp => "Cpp",
            Language::Nim => "Nim",
            Language::Crystal => "Crystal",
            Language::FSharp => "FSharp",
            Language::Dart => "Dart",
            Language::Elixir => "Elixir",
            Language::Bash => "Bash",
            Language::Zsh => "Zsh",
            Language::Fish => "Fish",
            Language::Unknown => "Unknown",
        }
    }

    /// Menu name of this language, as text.
    pub fn menu_name(&self) -> (r: &'static str)
        ensures
            r@ == menu_name_of(*self),
    {
        match self {
            Language::Rust => "Rust",
            Language::JavaScript => "Javascript",
            Language::TypeScript => "TypeScript",
            Language::Go => "Go",
            Language::D => "D",
            Language::Python => "Python",
            Language::Php => "Php",
            Language::Java => "Java",
            Language::Kotlin => "Kotlin",
            Language::Swift => "Swift",
            Language::Scala => "Scala",
            Language::Ruby => "Ruby",
            Language::Perl => "Perl",
            Language::R => "R",
            Language::Haskell => "Haskell",
            Language::Lua => "Lua",
            Language::ObjectiveC => "ObjectiveC",
            Language::C => "C",
            Language::Cpp => "Cpp",
            Language::Nim => "Nim",
            Language::Crystal => "Crystal",
            Language::FSharp => "Fsharp",
            Language::Dart => "Dart",
            Language::Elixir => "Elixir",
            Language::Bash => "Bash",
            Language::Zsh => "Zsh",
            Language::Fish => "Fish",
            Language::Unknown => "",
        }
    }
}

/// The support catalog: the languages a run can check, in menu order.
pub struct Support {
    pub languages: Vec<Language>,
}

/// Menu names of the given languages, in order, skipping the unknown
/// language, which has no menu entry.
pub open spec fn menu_names_of(ls: Seq<Language>) -> Seq<Seq<char>>
    decreases ls.len(),
{
    if ls.len() == 0 {
        Seq::empty()
    } else {
        let rest = menu_names_of(ls.drop_last());
        if ls.last() == Language::Unknown {
            rest
        } else {
            rest.push(menu_name_of(ls.last()))
        }
    }
}

impl Support {
    /// The full catalog: every supported language, in the fixed order.
    pub fn new() -> (r: Self)
        ensures
            r.languages@ =~= supported_languages(),
    {
        Support {
            languages: vec![
                Language::Rust,
                Language::JavaScript,
                Language::TypeScript,
                Language::Go,
                Language::D,
                Language::Python,
                Language::Php,
                Language::Java,
                Language::Kotlin,
                Language::Swift,
                Language::Scala,
                Language::Ruby,
                Language::Perl,
                Language::R,
                Language::Haskell,
                Language::Lua,
                Language::ObjectiveC,
                Language::C,
                Language::Cpp,
                Language::Nim,
                Language::Crystal,
                Language::FSharp,
                Language::Dart,
                Language::Elixir,
                Language::Bash,
                Language::Zsh,
                Language::Fish,
            ],
        }
    }

    /// The menu names of the catalog's languages, in order.
    pub fn all(self) -> (r: Vec<String>)
        ensures
            r@.len() == menu_names_of(self.languages@).len(),
            forall|i: int| 0 <= i < r@.len() ==> r@[i]@ == menu_names_of(self.languages@)[i],
    {
        let mut data: Vec<String> = Vec::new();
        let mut i: usize = 0;
        while i < self.languages.len()
            invariant
                0 <= i <= self.languages@.len(),
                data@.len() == menu_names_of(self.languages@.take(i as int)).len(),
                forall|j: int|
                    0 <= j < data@.len() ==> data@[j]@ == menu_names_of(
                        self.languages@.take(i as int),
                    )[j],
            decreases self.languages@.len() - i,
        {
            let l = self.languages[i];
            proof {
                assert(self.languages@.take(i + 1).drop_last() =~= self.languages@.take(i as int));
                assert(self.languages@.take(i + 1).last() == l);
            }
            if l != Language::Unknown {
                data.push(String::from_str(l.menu_name()));
            }
            i = i + 1;
        }
        proof {
            assert(self.languages@.take(self.languages@.len() as int) =~= self.languages@);
        }
        data
    }

    /// The catalog's languages themselves.
    pub fn supported(self) -> (r: Vec<Language>)
        ensures
            r@ == self.languages@,
    {
        self.languages
    }
}

impl Default for Support {
    /// An empty catalog, to be filled by hand.
    fn default() -> (r: Self)
        ensures
            r.languages@ =~= Seq::<Language>::empty(),
    {
        Support { languages: Vec::new() }
    }
}

/// `name` occurs among `names`.
pub open spec fn name_listed(name: Seq<char>, names: Seq<String>) -> bool {
    exists|i: int| 0 <= i < names.len() && names[i]@ == name
}

/// The languages of `ls` whose display name occurs among `names`, in the
/// order of `ls`.
pub open spec fn selected_of(ls: Seq<Language>, names: Seq<String>) -> Seq<Language>
    decreases ls.len(),
{
    if ls.len() == 0 {
        Seq::empty()
    } else {
        let rest = selected_of(ls.drop_last(), names);
        if name_listed(label_of(ls.last()), names) {
            rest.push(ls.last())
        } else {
            rest
        }
    }
}

/// Whether some entry of `names` equals `name`.
fn contains_name(names: &Vec<String>, name: &str) -> (b: bool)
    ensures
        b == name_listed(name@, names@),
{
    let target = String::from_str(name);
    let mut i: usize = 0;
    while i < names.len()
        invariant
            0 <= i <= names@.len(),
            target@ == name@,
            forall|j: int| 0 <= j < i ==> names@[j]@ != name@,
        decreases names@.len() - i,
    {
        if names[i].eq(&target) {
            return true;
        }
        i = i + 1;
    }
    false
}

/// The supported languages a configuration selects by name, in the fixed
/// support order: the run checks exactly these subjects.
pub fn languages_to_check(names: &Vec<String>) -> (r: Vec<Language>)
    ensures
        r@ =~= selected_of(supported_languages(), names@),
{
    let support = Support::new();
    let mut picked: Vec<Language> = Vec::new();
    let mut i: usize = 0;
    while i < support.languages.len()
        invariant
            0 <= i <= support.languages@.len(),
            support.languages@ =~= supported_languages(),
            picked@ =~= selected_of(support.languages@.take(i as int), names@),
        decreases support.languages@.len() - i,
    {
        let l = support.languages[i];
        proof {
            assert(support.languages@.take(i + 1).drop_last() =~= support.languages@.take(i as int));
            assert(support.languages@.take(i + 1).last() == l);
        }
        if contains_name(names, l.label()) {
            picked.push(l);
        }
        i = i + 1;
    }
    proof {
        assert(support.languages@.take(support.languages@.len() as int) =~= support.languages@);
    }
    picked
}

} // verus!
