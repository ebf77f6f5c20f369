//! The configured channels, and the registry that finds them by name.

use vstd::prelude::*;
use crate::matrix::matrix_channel::{MatrixChannelSettings, MatrixChannelSettingsView};
use crate::text::{join3, str_eq};

verus! {

/// The configuration as it was loaded: the channels in the order in which
/// they are written.
#[derive(Debug, PartialEq, Eq)]
pub struct Config {
    pub matrix: Vec<MatrixChannelSettings>,
}

/// Why a configuration cannot be used, or a channel cannot be found.
#[derive(Debug, PartialEq, Eq)]
pub enum ConfigError {
    /// Two channels have this name.
    DuplicateChannelName(String),
    /// No channel has this name.
    UnknownChannel(String),
}

/// A `ConfigError` as a mathematical value.
pub enum ConfigErrorView {
    DuplicateChannelName(Seq<char>),
    UnknownChannel(Seq<char>),
}

impl View for ConfigError {
    type V = ConfigErrorView;

    open spec fn view(&self) -> ConfigErrorView {
        match self {
            ConfigError::DuplicateChannelName(name) => ConfigErrorView::DuplicateChannelName(name@),
            ConfigError::UnknownChannel(name) => ConfigErrorView::UnknownChannel(name@),
        }
    }
}

impl ConfigErrorView {
    /// The error in words.
    pub open spec fn message(self) -> Seq<char> {
        match self {
            ConfigErrorView::DuplicateChannelName(name) => "Ambiguous channel name "@ + name
                + ", please rename conflicted channels"@,
            ConfigErrorView::UnknownChannel(name) => "Channel "@ + name + " not found"@,
        }
    }
}

impl ConfigError {
    /// The error in words.
    pub fn message(&self) -> (r: String)
        ensures
            r@ == self@.message(),
    {
        match self {
            ConfigError::DuplicateChannelName(name) => join3(
                "Ambiguous channel name ",
                name.as_str(),
                ", please rename conflicted channels",
            ),
            ConfigError::UnknownChannel(name) => join3("Channel ", name.as_str(), " not found"),
        }
    }
}

/// Settings as mathematical values.
pub open spec fn settings_views(channels: Seq<MatrixChannelSettings>) -> Seq<MatrixChannelSettingsView> {
    channels.map_values(|c: MatrixChannelSettings| c@)
}

/// The names of channels, in the order of the channels.
pub open spec fn names_of(channels: Seq<MatrixChannelSettingsView>) -> Seq<Seq<char>> {
    channels.map_values(|c: MatrixChannelSettingsView| c.name)
}

/// Whether `j` is the first place in a list at which a name stands that
/// has stood there before.
pub open spec fn is_first_repeat(names: Seq<Seq<char>>, j: int) -> bool {
    &&& 0 <= j < names.len()
    &&& names.take(j).contains(names[j])
    &&& names.take(j).no_duplicates()
}

/// Whether `j` is the first place in a list of requested names at which a
/// name stands that is not known.
pub open spec fn is_first_unknown(known: Seq<Seq<char>>, requested: Seq<Seq<char>>, j: int) -> bool {
    &&& 0 <= j < requested.len()
    &&& !known.contains(requested[j])
    &&& forall|i: int| 0 <= i < j ==> known.contains(#[trigger] requested[i])
}

/// Whether `found` are the channels that the requested names stand for, one
/// for each name and in the order of the names.
pub open spec fn stands_for(
    channels: Seq<MatrixChannelSettingsView>,
    requested: Seq<Seq<char>>,
    found: Seq<MatrixChannelSettingsView>,
) -> bool {
    &&& found.len() == requested.len()
    &&& forall|i: int| 0 <= i < found.len() ==> channels.contains(#[trigger] found[i]) && found[i].name == requested[i]
}

/// Whether an error names the first name of a list that has stood in the
/// list before.
pub open spec fn names_first_repeat(names: Seq<Seq<char>>, e: ConfigErrorView) -> bool {
    exists|j: int| is_first_repeat(names, j) && e == ConfigErrorView::DuplicateChannelName(#[trigger] names[j])
}

/// What loading gives: the channels as they are, if no two share a name;
/// else the error that names the first channel whose name was taken.
pub open spec fn loads_to(
    channels: Seq<MatrixChannelSettingsView>,
    result: Result<Seq<MatrixChannelSettingsView>, ConfigErrorView>,
) -> bool {
    match result {
        Ok(loaded) => names_of(channels).no_duplicates() && loaded == channels,
        Err(e) => names_first_repeat(names_of(channels), e),
    }
}

/// A configuration in which two channels share a name is never loaded:
/// there is no registry of it, only the error.
pub proof fn lemma_shared_name_never_loads(
    channels: Seq<MatrixChannelSettingsView>,
    i: int,
    j: int,
    result: Result<Seq<MatrixChannelSettingsView>, ConfigErrorView>,
)
    requires
        0 <= i < j < channels.len(),
        channels[i].name == channels[j].name,
        loads_to(channels, result),
    ensures
        result is Err,
{
    if result is Ok {
        assert(names_of(channels)[i] == names_of(channels)[j]);
    }
}

/// A configuration in which no two channels share a name is loaded as it
/// is.
pub proof fn lemma_distinct_names_load(
    channels: Seq<MatrixChannelSettingsView>,
    result: Result<Seq<MatrixChannelSettingsView>, ConfigErrorView>,
)
    requires
        names_of(channels).no_duplicates(),
        loads_to(channels, result),
    ensures
        result == Ok::<Seq<MatrixChannelSettingsView>, ConfigErrorView>(channels),
{
    if let Err(e) = result {
        let names = names_of(channels);
        let j = choose|j: int| is_first_repeat(names, j) && e == ConfigErrorView::DuplicateChannelName(#[trigger] names[j]);
        let i = choose|i: int| 0 <= i < names.take(j).len() && names.take(j)[i] == names[j];
        assert(names[i] == names[j]);
    }
}

/// Loading has one answer: the channels, or the one name that is the first
/// to be taken twice.
pub proof fn lemma_load_is_determined(
    channels: Seq<MatrixChannelSettingsView>,
    one: Result<Seq<MatrixChannelSettingsView>, ConfigErrorView>,
    other: Result<Seq<MatrixChannelSettingsView>, ConfigErrorView>,
)
    requires
        loads_to(channels, one),
        loads_to(channels, other),
    ensures
        one == other,
{
    let names = names_of(channels);
    match (one, other) {
        (Ok(_), _) => {
            lemma_distinct_names_load(channels, other);
        },
        (_, Ok(_)) => {
            lemma_distinct_names_load(channels, one);
        },
        (Err(e), Err(f)) => {
            let j = choose|j: int| is_first_repeat(names, j) && e == ConfigErrorView::DuplicateChannelName(#[trigger] names[j]);
            let k = choose|k: int| is_first_repeat(names, k) && f == ConfigErrorView::DuplicateChannelName(#[trigger] names[k]);
            if j < k {
                let i = choose|i: int| 0 <= i < names.take(j).len() && names.take(j)[i] == names[j];
                assert(names.take(k)[i] == names.take(k)[j]);
            } else if k < j {
                let i = choose|i: int| 0 <= i < names.take(k).len() && names.take(k)[i] == names[k];
                assert(names.take(j)[i] == names.take(j)[k]);
            }
        },
    }
}

/// A registry, or the error in its place, as a mathematical value.
pub open spec fn registry_view(result: Result<ChannelRegistry, ConfigError>) -> Result<
    Seq<MatrixChannelSettingsView>,
    ConfigErrorView,
> {
    match result {
        Ok(registry) => Ok(registry@),
        Err(e) => Err(e@),
    }
}

impl View for Config {
    type V = Seq<MatrixChannelSettingsView>;

    open spec fn view(&self) -> Seq<MatrixChannelSettingsView> {
        settings_views(self.matrix@)
    }
}

/// The channels of one run, by name. No two of them share a name.
pub struct ChannelRegistry {
    channels: Vec<MatrixChannelSettings>,
}

impl View for ChannelRegistry {
    type V = Seq<MatrixChannelSettingsView>;

    closed spec fn view(&self) -> Seq<MatrixChannelSettingsView> {
        settings_views(self.channels@)
    }
}

/// Names, as they are requested, as mathematical values.
pub open spec fn requested_views(requested: Seq<String>) -> Seq<Seq<char>> {
    requested.map_values(|name: String| name@)
}

/// What resolving gives. Without a list of names it is every channel of
/// the registry, in the registry's order. With one it is the channels
/// that the names stand for, or the first name that stands for none.
pub open spec fn resolves_to(
    channels: Seq<MatrixChannelSettingsView>,
    requested: Option<Seq<Seq<char>>>,
    result: Result<Seq<MatrixChannelSettingsView>, ConfigErrorView>,
) -> bool {
    match requested {
        None => result == Ok::<Seq<MatrixChannelSettingsView>, ConfigErrorView>(channels),
        Some(names) => match result {
            Ok(found) => stands_for(channels, names, found),
            Err(e) => names_first_unknown(names_of(channels), names, e),
        },
    }
}

/// Whether an error names the first requested name that is not known.
pub open spec fn names_first_unknown(known: Seq<Seq<char>>, requested: Seq<Seq<char>>, e: ConfigErrorView) -> bool {
    exists|j: int| is_first_unknown(known, requested, j) && e == ConfigErrorView::UnknownChannel(#[trigger] requested[j])
}

/// Resolving has one answer. Among channels whose names differ, the
/// channels that a list of names stands for are determined by the list;
/// and a list either stands for channels or has a first unknown name,
/// never both.
pub proof fn lemma_resolution_is_determined(
    channels: Seq<MatrixChannelSettingsView>,
    requested: Seq<Seq<char>>,
    one: Result<Seq<MatrixChannelSettingsView>, ConfigErrorView>,
    other: Result<Seq<MatrixChannelSettingsView>, ConfigErrorView>,
)
    requires
        names_of(channels).no_duplicates(),
        resolves_to(channels, Some(requested), one),
        resolves_to(channels, Some(requested), other),
    ensures
        one == other,
{
    let names = names_of(channels);
    match (one, other) {
        (Ok(a), Ok(b)) => {
            assert forall|i: int| 0 <= i < a.len() implies a[i] == b[i] by {
                let x = choose|x: int| 0 <= x < channels.len() && channels[x] == a[i];
                let y = choose|y: int| 0 <= y < channels.len() && channels[y] == b[i];
                assert(names[x] == names[y]);
            }
            assert(a =~= b);
        },
        (Ok(a), Err(e)) => {
            lemma_found_names_are_known(channels, requested, a);
        },
        (Err(e), Ok(b)) => {
            lemma_found_names_are_known(channels, requested, b);
        },
        (Err(e), Err(f)) => {
            let j = choose|j: int| is_first_unknown(names, requested, j) && e == ConfigErrorView::UnknownChannel(#[trigger] requested[j]);
            let k = choose|k: int| is_first_unknown(names, requested, k) && f == ConfigErrorView::UnknownChannel(#[trigger] requested[k]);
            if j < k {
                assert(names.contains(requested[j]));
            } else if k < j {
                assert(names.contains(requested[k]));
            }
        },
    }
}

/// Where a list of names stands for channels, every name of it is known.
proof fn lemma_found_names_are_known(
    channels: Seq<MatrixChannelSettingsView>,
    requested: Seq<Seq<char>>,
    found: Seq<MatrixChannelSettingsView>,
)
    requires
        stands_for(channels, requested, found),
    ensures
        forall|j: int| 0 <= j < requested.len() ==> names_of(channels).contains(#[trigger] requested[j]),
{
    let names = names_of(channels);
    assert forall|j: int| 0 <= j < requested.len() implies names.contains(#[trigger] requested[j]) by {
        let x = choose|x: int| 0 <= x < channels.len() && channels[x] == found[j];
        assert(names[x] == requested[j]);
    }
}

/// A list of requested names, if there is one, as a mathematical value.
pub open spec fn request_view(requested: Option<&Vec<String>>) -> Option<Seq<Seq<char>>> {
    match requested {
        Some(names) => Some(requested_views(names@)),
        None => None,
    }
}

/// Channels, or the error in their place, as a mathematical value.
pub open spec fn resolution_view(result: Result<Vec<MatrixChannelSettings>, ConfigError>) -> Result<
    Seq<MatrixChannelSettingsView>,
    ConfigErrorView,
> {
    match result {
        Ok(found) => Ok(settings_views(found@)),
        Err(e) => Err(e@),
    }
}

impl ChannelRegistry {
    #[verifier::type_invariant]
    spec fn names_differ(self) -> bool {
        names_of(settings_views(self.channels@)).no_duplicates()
    }

    /// How many channels there are.
    pub fn len(&self) -> (r: usize)
        ensures
            r == self@.len(),
    {
        self.channels.len()
    }

    /// The channel of that name. At most one channel has it.
    pub fn get(&self, name: &str) -> (r: Option<&MatrixChannelSettings>)
        ensures
            names_of(self@).no_duplicates(),
            match r {
                Some(channel) => self@.contains(channel@) && channel@.name == name@,
                None => !names_of(self@).contains(name@),
            },
    {
        proof {
            use_type_invariant(self);
        }
        let ghost names = names_of(self@);
        assert(names.take(self.channels.len() as int) =~= names);
        match position(&self.channels, self.channels.len(), name) {
            Some(i) => {
                assert(self@[i as int] == self.channels[i as int]@);
                Some(&self.channels[i])
            },
            None => None,
        }
    }

    /// The channels that are asked for: all of them where `requested` is
    /// `None`, else the one of each requested name. Every requested name
    /// must be known; the first that is not fails the whole request.
    pub fn resolve(&self, requested: Option<&Vec<String>>) -> (r: Result<
        Vec<MatrixChannelSettings>,
        ConfigError,
    >)
        ensures
            names_of(self@).no_duplicates(),
            resolves_to(self@, request_view(requested), resolution_view(r)),
    {
        proof {
            use_type_invariant(self);
        }
        let mut found: Vec<MatrixChannelSettings> = Vec::new();
        match requested {
            None => {
                let mut i: usize = 0;
                while i < self.channels.len()
                    invariant
                        i <= self.channels.len(),
                        settings_views(found@) == self@.take(i as int),
                    decreases self.channels.len() - i,
                {
                    let ghost before = found@;
                    found.push(self.channels[i].clone());
                    assert(settings_views(found@) =~= settings_views(before).push(self@[i as int]));
                    assert(self@.take(i as int + 1) =~= self@.take(i as int).push(self@[i as int]));
                    i += 1;
                }
                assert(self@.take(i as int) =~= self@);
                Ok(found)
            },
            Some(names) => {
                let ghost wanted = requested_views(names@);
                let mut i: usize = 0;
                while i < names.len()
                    invariant
                        i <= names.len(),
                        wanted == requested_views(names@),
                        request_view(requested) == Some(wanted),
                        stands_for(self@, wanted.take(i as int), settings_views(found@)),
                        forall|k: int| 0 <= k < i ==> names_of(self@).contains(#[trigger] wanted[k]),
                    decreases names.len() - i,
                {
                    match self.get(names[i].as_str()) {
                        Some(channel) => {
                            let ghost before = found@;
                            found.push(channel.clone());
                            proof {
                                let now = settings_views(found@);
                                assert(now =~= settings_views(before).push(channel@));
                                let k = choose|k: int| 0 <= k < self@.len() && self@[k] == channel@;
                                assert(names_of(self@)[k] == wanted[i as int]);
                                assert forall|m: int| 0 <= m < now.len() implies self@.contains(
                                    #[trigger] now[m],
                                ) && now[m].name == wanted.take(i as int + 1)[m] by {
                                    if m < i {
                                        assert(now[m] == settings_views(before)[m]);
                                        assert(wanted.take(i as int)[m] == wanted[m]);
                                    }
                                }
                            }
                        },
                        None => {
                            let e = ConfigError::UnknownChannel(names[i].clone());
                            assert(is_first_unknown(names_of(self@), wanted, i as int));
                            assert(e@ == ConfigErrorView::UnknownChannel(wanted[i as int]));
                            assert(names_first_unknown(names_of(self@), wanted, e@));
                            return Err(e);
                        },
                    }
                    i += 1;
                }
                assert(wanted.take(i as int) =~= wanted);
                Ok(found)
            },
        }
    }
}

/// The place of the first of the first `upto` channels that has the name.
fn position(channels: &Vec<MatrixChannelSettings>, upto: usize, name: &str) -> (r: Option<usize>)
    requires
        upto <= channels.len(),
    ensures
        match r {
            Some(i) => i < upto && settings_views(channels@)[i as int].name == name@ && !names_of(
                settings_views(channels@),
            ).take(i as int).contains(name@),
            None => !names_of(settings_views(channels@)).take(upto as int).contains(name@),
        },
{
    let ghost names = names_of(settings_views(channels@));
    let mut i: usize = 0;
    while i < upto
        invariant
            i <= upto <= channels.len(),
            names == names_of(settings_views(channels@)),
            !names.take(i as int).contains(name@),
        decreases upto - i,
    {
        if str_eq(channels[i].name.as_str(), name) {
            return Some(i);
        }
        assert(!names.take(i as int + 1).contains(name@)) by {
            let longer = names.take(i as int + 1);
            if longer.contains(name@) {
                let k = choose|k: int| 0 <= k < longer.len() && longer[k] == name@;
                if k < i {
                    assert(names.take(i as int)[k] == name@);
                }
            }
        }
        i += 1;
    }
    None
}

impl Config {
    /// Convert the config to the registry of its channels. Fails on the
    /// first channel whose name an earlier channel has, and names it.
    pub fn to_map(self) -> (r: Result<ChannelRegistry, ConfigError>)
        ensures
            loads_to(self@, registry_view(r)),
    {
        let ghost names = names_of(self@);
        let mut j: usize = 0;
        while j < self.matrix.len()
            invariant
                j <= self.matrix.len(),
                names == names_of(settings_views(self.matrix@)),
                names.take(j as int).no_duplicates(),
            decreases self.matrix.len() - j,
        {
            match position(&self.matrix, j, self.matrix[j].name.as_str()) {
                Some(i) => {
                    assert(names.take(j as int)[i as int] == names[j as int]);
                    assert(is_first_repeat(names, j as int));
                    let e = ConfigError::DuplicateChannelName(self.matrix[j].name.clone());
                    assert(names == names_of(self@));
                    assert(e@ == ConfigErrorView::DuplicateChannelName(names[j as int]));
                    assert(names_first_repeat(names, e@));
                    return Err(e);
                },
                None => {
                    assert(names.take(j as int + 1).no_duplicates()) by {
                        let longer = names.take(j as int + 1);
                        assert forall|a: int, b: int| 0 <= a < longer.len() && 0 <= b < longer.len() && a != b implies longer[a] != longer[b] by {
                            if a < j && b < j {
                                assert(names.take(j as int)[a] != names.take(j as int)[b]);
                            } else if a < j {
                                assert(names.take(j as int)[a] == longer[a]);
                            } else {
                                assert(names.take(j as int)[b] == longer[b]);
                            }
                        }
                    }
                },
            }
            j += 1;
        }
        assert(names.take(j as int) =~= names);
        Ok(ChannelRegistry { channels: self.matrix })
    }
}

} // verus!
