//! The settings of a game project that the editor tooling reads.

use crate::text::{split_on, split_trimmed, starts_with, str_eq, str_starts_with, trim_all, views};
use vstd::prelude::*;

verus! {

/// What a project offers to projects that depend on it.
#[derive(Debug)]
pub struct Library {
    pub include_dirs: Vec<String>,
}

/// The settings read from a `game.project` file.
#[derive(Debug)]
pub struct GameProject {
    pub title: String,
    pub dependencies: Vec<String>,
    pub library: Option<Library>,
}

/// The mathematical value of a [`GameProject`].
pub struct ProjectView {
    pub title: Seq<char>,
    pub dependencies: Seq<Seq<char>>,
    pub library: Option<Seq<Seq<char>>>,
}

impl View for GameProject {
    type V = ProjectView;

    open spec fn view(&self) -> ProjectView {
        ProjectView {
            title: self.title@,
            dependencies: views(self.dependencies@),
            library: match self.library {
                Some(l) => Some(views(l.include_dirs@)),
                None => None,
            },
        }
    }
}

/// One section of a settings file: its name, and its keys with their values in the
/// order of the file. The section before the first heading has no name.
#[derive(Debug)]
pub struct Section {
    pub name: Option<String>,
    pub properties: Vec<(String, String)>,
}

/// The mathematical value of a [`Section`].
pub struct SectionView {
    pub name: Option<Seq<char>>,
    pub properties: Seq<(Seq<char>, Seq<char>)>,
}

impl View for Section {
    type V = SectionView;

    open spec fn view(&self) -> SectionView {
        SectionView {
            name: match self.name {
                Some(n) => Some(n@),
                None => None,
            },
            properties: Seq::new(
                self.properties@.len(),
                |i: int| (self.properties@[i].0@, self.properties@[i].1@),
            ),
        }
    }
}

/// The views of a list of sections.
pub open spec fn section_views(sections: Seq<Section>) -> Seq<SectionView> {
    Seq::new(sections.len(), |i: int| sections[i]@)
}

/// Why a settings file is no game project.
#[derive(Debug, Clone, Copy, PartialEq, Eq, Structural)]
pub enum GameProjectError {
    /// The text is no settings file.
    Syntax,
    /// The file has no `[project]` section.
    NoProjectSection,
    /// The `[project]` section has no `title`.
    NoTitle,
}

/// The error with which `rust-ini` rejects a text. Nothing of it is read.
#[verifier::external_type_specification]
#[verifier::external_body]
pub struct ExParseError(ini::ParseError);

/// The sections that `rust-ini` reads from `text`, in the order in which it walks
/// them; none where it rejects the text.
pub uninterp spec fn ini_document(text: Seq<char>) -> Option<Seq<SectionView>>;

/// Calls `Ini::load_from_str` of `rust-ini` and copies what `Ini::iter` and
/// `Properties::iter` walk over into sections. The contract names that list of
/// sections, and says that there is none exactly where the crate returns its error.
#[verifier::external_body]
fn load_ini(text: &str) -> (r: Result<Vec<Section>, ini::ParseError>)
    ensures
        match r {
            Ok(sections) => ini_document(text@) == Some(section_views(sections@)),
            Err(_) => ini_document(text@) is None,
        },
{
    let document = ini::Ini::load_from_str(text)?;
    Ok(
        document.iter().map(
            |(name, properties)|
                Section {
                    name: name.map(|n| n.to_string()),
                    properties: properties.iter().map(|(k, v)| (k.to_string(), v.to_string())).collect(),
                },
        ).collect(),
    )
}

/// The first of `sections` that is named `name`.
pub open spec fn section_named(sections: Seq<SectionView>, name: Seq<char>) -> Option<
    SectionView,
>
    decreases sections.len(),
{
    if sections.len() == 0 {
        None
    } else if sections[0].name == Some(name) {
        Some(sections[0])
    } else {
        section_named(sections.skip(1), name)
    }
}

/// The first value that `properties` give to `key`.
pub open spec fn value_of(properties: Seq<(Seq<char>, Seq<char>)>, key: Seq<char>) -> Option<
    Seq<char>,
>
    decreases properties.len(),
{
    if properties.len() == 0 {
        None
    } else if properties[0].0 == key {
        Some(properties[0].1)
    } else {
        value_of(properties.skip(1), key)
    }
}

/// The values of the keys that begin with `prefix`, in order.
pub open spec fn values_under(properties: Seq<(Seq<char>, Seq<char>)>, prefix: Seq<char>) -> Seq<
    Seq<char>,
>
    decreases properties.len(),
{
    if properties.len() == 0 {
        Seq::empty()
    } else if starts_with(properties.last().0, prefix) {
        values_under(properties.drop_last(), prefix).push(properties.last().1)
    } else {
        values_under(properties.drop_last(), prefix)
    }
}

/// The directories that a `[library]` section offers: the pieces of its
/// `include_dirs` between commas, trimmed; none where it has no such key.
pub open spec fn include_dirs_of(library: SectionView) -> Seq<Seq<char>> {
    match value_of(library.properties, "include_dirs"@) {
        Some(dirs) => trim_all(split_on(dirs, ',')),
        None => Seq::empty(),
    }
}

/// The game project that `sections` describe: the title and the dependencies of the
/// `[project]` section, and the directories of the `[library]` section if there is
/// one.
pub open spec fn project_of(sections: Seq<SectionView>) -> Result<ProjectView, GameProjectError> {
    match section_named(sections, "project"@) {
        None => Err(GameProjectError::NoProjectSection),
        Some(project) => match value_of(project.properties, "title"@) {
            None => Err(GameProjectError::NoTitle),
            Some(title) => Ok(
                ProjectView {
                    title,
                    dependencies: values_under(project.properties, "dependencies#"@),
                    library: match section_named(sections, "library"@) {
                        Some(library) => Some(include_dirs_of(library)),
                        None => None,
                    },
                },
            ),
        },
    }
}

/// The game project that the text of a settings file describes.
pub open spec fn parsed(text: Seq<char>) -> Result<ProjectView, GameProjectError> {
    match ini_document(text) {
        Some(sections) => project_of(sections),
        None => Err(GameProjectError::Syntax),
    }
}

/// The view of the outcome of reading a game project.
pub open spec fn project_result_view(r: Result<GameProject, GameProjectError>) -> Result<
    ProjectView,
    GameProjectError,
> {
    match r {
        Ok(p) => Ok(p@),
        Err(e) => Err(e),
    }
}

fn find_section<'a>(sections: &'a Vec<Section>, name: &str) -> (r: Option<&'a Section>)
    ensures
        match r {
            Some(s) => section_named(section_views(sections@), name@) == Some(s@),
            None => section_named(section_views(sections@), name@) is None,
        },
{
    let ghost all = section_views(sections@);
    let mut i: usize = 0;
    assert(all.skip(0) == all);
    while i < sections.len()
        invariant
            i <= sections@.len(),
            all == section_views(sections@),
            section_named(all, name@) == section_named(all.skip(i as int), name@),
        decreases sections@.len() - i,
    {
        assert(all.skip(i as int)[0] == sections@[i as int]@);
        assert(all.skip(i as int).skip(1) == all.skip(i as int + 1));
        let hit: bool = match &sections[i].name {
            Some(n) => str_eq(n.as_str(), name),
            None => false,
        };
        if hit {
            return Some(&sections[i]);
        }
        i = i + 1;
    }
    None
}

fn find_value<'a>(section: &'a Section, key: &str) -> (r: Option<&'a String>)
    ensures
        match r {
            Some(v) => value_of(section@.properties, key@) == Some(v@),
            None => value_of(section@.properties, key@) is None,
        },
{
    let ghost all = section@.properties;
    let mut i: usize = 0;
    assert(all.skip(0) == all);
    while i < section.properties.len()
        invariant
            i <= section.properties@.len(),
            all == section@.properties,
            value_of(all, key@) == value_of(all.skip(i as int), key@),
        decreases section.properties@.len() - i,
    {
        assert(all.skip(i as int)[0] == (
            section.properties@[i as int].0@,
            section.properties@[i as int].1@,
        ));
        assert(all.skip(i as int).skip(1) == all.skip(i as int + 1));
        if str_eq(section.properties[i].0.as_str(), key) {
            return Some(&section.properties[i].1);
        }
        i = i + 1;
    }
    None
}

fn collect_values(section: &Section, prefix: &str) -> (r: Vec<String>)
    ensures
        views(r@) == values_under(section@.properties, prefix@),
{
    let ghost all = section@.properties;
    let mut out: Vec<String> = Vec::new();
    let mut i: usize = 0;
    assert(all.take(0) == Seq::<(Seq<char>, Seq<char>)>::empty());
    assert(views(out@) == Seq::<Seq<char>>::empty());
    while i < section.properties.len()
        invariant
            i <= section.properties@.len(),
            all == section@.properties,
            views(out@) == values_under(all.take(i as int), prefix@),
        decreases section.properties@.len() - i,
    {
        let ghost before = views(out@);
        assert(all.take(i as int + 1).drop_last() == all.take(i as int));
        assert(all.take(i as int + 1).last() == (
            section.properties@[i as int].0@,
            section.properties@[i as int].1@,
        ));
        if str_starts_with(section.properties[i].0.as_str(), prefix) {
            let value: String = section.properties[i].1.clone();
            out.push(value);
            assert(views(out@) == before.push(value@));
        }
        i = i + 1;
    }
    assert(all.take(section.properties@.len() as int) == all);
    out
}

impl GameProject {
    /// The game project that the sections of a settings file describe.
    ///
    /// Fails with `NoProjectSection` where no section is named `project`, and with
    /// `NoTitle` where the first such section has no key `title`.
    pub fn from_sections(sections: &Vec<Section>) -> (r: Result<GameProject, GameProjectError>)
        ensures
            project_result_view(r) == project_of(section_views(sections@)),
    {
        let project: &Section = match find_section(sections, "project") {
            Some(s) => s,
            None => {
                return Err(GameProjectError::NoProjectSection);
            },
        };
        let title: String = match find_value(project, "title") {
            Some(t) => t.clone(),
            None => {
                return Err(GameProjectError::NoTitle);
            },
        };
        let dependencies: Vec<String> = collect_values(project, "dependencies#");
        let library: Option<Library> = match find_section(sections, "library") {
            Some(section) => {
                let include_dirs: Vec<String> = match find_value(section, "include_dirs") {
                    Some(dirs) => split_trimmed(dirs.as_str(), ','),
                    None => {
                        let none: Vec<String> = Vec::new();
                        assert(views(none@) == Seq::<Seq<char>>::empty());
                        none
                    },
                };
                Some(Library { include_dirs })
            },
            None => None,
        };
        Ok(GameProject { title, dependencies, library })
    }

    /// Reads a game project from the text of its settings file.
    ///
    /// Fails with `Syntax` where the text is no settings file, else as
    /// [`GameProject::from_sections`] does on the sections of the text.
    pub fn parse(text: &str) -> (r: Result<GameProject, GameProjectError>)
        ensures
            project_result_view(r) == parsed(text@),
    {
        match load_ini(text) {
            Ok(sections) => GameProject::from_sections(&sections),
            Err(_) => Err(GameProjectError::Syntax),
        }
    }
}

impl TryFrom<String> for GameProject {
    type Error = GameProjectError;

    /// Reads a game project from the text of its settings file, as
    /// [`GameProject::parse`] does.
    fn try_from(value: String) -> (r: Result<Self, Self::Error>)
        ensures
            project_result_view(r) == parsed(value@),
    {
        GameProject::parse(value.as_str())
    }
}

impl vstd::std_specs::convert::TryFromSpecImpl<String> for GameProject {
    open spec fn obeys_try_from_spec() -> bool {
        false
    }

    open spec fn try_from_spec(v: String) -> Result<Self, GameProjectError> {
        arbitrary()
    }
}

} // verus!
