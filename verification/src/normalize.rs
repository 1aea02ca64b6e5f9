//! Settling on the path of the Java executable.
//!
//! A path that names an existing file is taken as it is. Otherwise the
//! platform decides what is tried: on Windows the path with `.exe` added and,
//! for a bare `java.exe`, the search path; elsewhere the search path, for a
//! bare `java` only. The driver probes the file system and runs the lookup;
//! every decision is made here.

use crate::lookup::{first_listed, first_path};
use crate::platform::Platform;
use crate::task::path_file_name;
use crate::text::text_of;
use vstd::prelude::*;
use vstd::string::*;

verus! {

/// Where the search for the executable stands.
#[derive(Clone, Copy, PartialEq, Eq, Structural, Debug)]
pub enum Search {
    /// Probing the path as it was requested.
    Requested,
    /// Probing the path with `.exe` added.
    Extended,
    /// Looking on the search path.
    LookingUp,
    /// Probing the path that the lookup found.
    Found,
    /// Settled on the candidate.
    Accepted,
    /// Given up; the candidate is the path that was not found.
    Rejected,
}

/// What the driver is asked for, or told.
#[derive(Debug, Clone, PartialEq, Eq)]
pub enum Ask {
    /// Find out whether this path exists.
    Probe(String),
    /// Run the lookup program and hand over what it printed.
    Lookup,
    /// The search is over: this is the executable.
    Accept(String),
    /// The search is over: there is no executable; this is the message.
    Reject(String),
}

/// An [`Ask`] as a mathematical value.
pub ghost enum AskModel {
    Probe(Seq<char>),
    Lookup,
    Accept(Seq<char>),
    Reject(Seq<char>),
}

impl View for Ask {
    type V = AskModel;

    open spec fn view(&self) -> AskModel {
        match self {
            Ask::Probe(path) => AskModel::Probe(path@),
            Ask::Lookup => AskModel::Lookup,
            Ask::Accept(path) => AskModel::Accept(path@),
            Ask::Reject(message) => AskModel::Reject(message@),
        }
    }
}

/// What the platform's path rules say of a candidate.
pub ghost struct PathFacts {
    /// Whether the candidate's file name has an extension.
    pub has_extension: bool,
    /// The candidate with its extension set to `exe`.
    pub with_exe: Seq<char>,
    /// Whether the candidate's file name is `java.exe`.
    pub is_java_exe: bool,
}

/// The message for an executable that was not found at `path`.
pub open spec fn not_found(path: Seq<char>) -> Seq<char> {
    "Java executable not found at: "@ + path
        + "\nPlease configure a valid Java path in Settings."@
}

/// A search as a mathematical value.
pub ghost struct SearchModel {
    /// The platform whose rules apply.
    pub platform: Platform,
    /// The path as it was requested.
    pub requested: Seq<char>,
    /// The path that is being tried.
    pub candidate: Seq<char>,
    /// Where the search stands.
    pub search: Search,
}

impl SearchModel {
    /// The search for `path`, before anything is known.
    pub open spec fn initial(platform: Platform, path: Seq<char>) -> SearchModel {
        SearchModel { platform, requested: path, candidate: path, search: Search::Requested }
    }

    /// The same search at another point.
    pub open spec fn at(self, search: Search) -> SearchModel {
        SearchModel { search, ..self }
    }

    /// What the search awaits of the driver, or has settled on.
    pub open spec fn ask(self) -> AskModel {
        match self.search {
            Search::Requested => AskModel::Probe(self.candidate),
            Search::Extended => AskModel::Probe(self.candidate),
            Search::Found => AskModel::Probe(self.candidate),
            Search::LookingUp => AskModel::Lookup,
            Search::Accepted => AskModel::Accept(self.candidate),
            Search::Rejected => AskModel::Reject(not_found(self.candidate)),
        }
    }

    /// Whether the search is over.
    pub open spec fn settled(self) -> bool {
        self.search is Accepted || self.search is Rejected
    }

    /// On Windows, what follows for a candidate that needs no extension
    /// added: it is taken if it exists, looked up if it is a bare
    /// `java.exe`, and given up otherwise.
    pub open spec fn extended(self, exists: bool, is_java_exe: bool) -> SearchModel {
        if exists {
            self.at(Search::Accepted)
        } else if is_java_exe {
            self.at(Search::LookingUp)
        } else {
            self.at(Search::Rejected)
        }
    }

    /// The search after the driver has probed the candidate. A probe that
    /// was not asked for changes nothing.
    pub open spec fn probed(self, exists: bool, facts: PathFacts) -> SearchModel {
        match self.search {
            Search::Requested => if exists {
                self.at(Search::Accepted)
            } else if self.platform is Windows {
                if facts.has_extension {
                    self.extended(false, facts.is_java_exe)
                } else {
                    SearchModel { candidate: facts.with_exe, search: Search::Extended, ..self }
                }
            } else if self.requested == "java"@ {
                self.at(Search::LookingUp)
            } else {
                self.at(Search::Rejected)
            },
            Search::Extended => self.extended(exists, facts.is_java_exe),
            Search::Found => if exists {
                self.at(Search::Accepted)
            } else {
                self.at(Search::Rejected)
            },
            _ => self,
        }
    }

    /// The search after the lookup, which found `found` or nothing. On
    /// Windows what was found is probed and nothing found is the end;
    /// elsewhere what was found is taken unseen, and with nothing found the
    /// bare name is kept. A lookup that was not asked for changes nothing.
    pub open spec fn looked_up(self, found: Option<Seq<char>>) -> SearchModel {
        match self.search {
            Search::LookingUp => match found {
                Some(path) => SearchModel {
                    candidate: path,
                    search: if self.platform is Windows {
                        Search::Found
                    } else {
                        Search::Accepted
                    },
                    ..self
                },
                None => if self.platform is Windows {
                    self.at(Search::Rejected)
                } else {
                    self.at(Search::Accepted)
                },
            },
            _ => self,
        }
    }
}

/// `std::path::Path::extension`, converted to text as `to_string_lossy`
/// does. Which part of a path is its extension depends on the platform, so
/// nothing is claimed of the result.
#[verifier::external_body]
fn path_extension(path: &str) -> (extension: Option<String>) {
    match std::path::Path::new(path).extension() {
        Some(extension) => Some(extension.to_string_lossy().into_owned()),
        None => None,
    }
}

/// `std::path::PathBuf::set_extension`, on a copy of the path. It does not
/// take an extension that holds a path separator. The result depends on the
/// platform's path rules, so nothing is claimed of it.
#[verifier::external_body]
fn path_with_extension(path: &str, extension: &str) -> (replaced: String)
    requires
        !extension@.contains('/'),
        !extension@.contains('\\'),
{
    let mut buffer = std::path::PathBuf::from(path);
    buffer.set_extension(extension);
    buffer.to_string_lossy().into_owned()
}

/// The message for an executable that was not found at `path`.
pub fn not_found_message(path: &str) -> (message: String)
    ensures
        message@ == not_found(path@),
{
    String::from_str("Java executable not found at: ").concat(path).concat(
        "\nPlease configure a valid Java path in Settings.",
    )
}

/// The search for the Java executable behind a requested path.
pub struct Normalizer {
    platform: Platform,
    requested: String,
    candidate: String,
    search: Search,
}

impl View for Normalizer {
    type V = SearchModel;

    closed spec fn view(&self) -> SearchModel {
        SearchModel {
            platform: self.platform,
            requested: self.requested@,
            candidate: self.candidate@,
            search: self.search,
        }
    }
}

impl Normalizer {
    /// Begins the search for `path` under the rules of `platform`.
    pub fn new(platform: Platform, path: &str) -> (fresh: Normalizer)
        ensures
            fresh@ == SearchModel::initial(platform, path@),
    {
        Normalizer {
            platform,
            requested: String::from_str(path),
            candidate: String::from_str(path),
            search: Search::Requested,
        }
    }

    /// What the search awaits of the driver, or has settled on.
    pub fn ask(&self) -> (ask: Ask)
        ensures
            ask@ == self@.ask(),
    {
        match self.search {
            Search::Requested | Search::Extended | Search::Found => Ask::Probe(
                self.candidate.clone(),
            ),
            Search::LookingUp => Ask::Lookup,
            Search::Accepted => Ask::Accept(self.candidate.clone()),
            Search::Rejected => Ask::Reject(not_found_message(self.candidate.as_str())),
        }
    }

    /// Whether the search is over.
    pub fn is_settled(&self) -> (over: bool)
        ensures
            over == self@.settled(),
    {
        match self.search {
            Search::Accepted | Search::Rejected => true,
            _ => false,
        }
    }

    /// Takes in whether the candidate exists, together with what the
    /// platform's path rules say of the candidate.
    pub fn decide(
        &mut self,
        exists: bool,
        has_extension: bool,
        with_exe: String,
        is_java_exe: bool,
    ) -> (ask: Ask)
        ensures
            final(self)@ == old(self)@.probed(
                exists,
                PathFacts { has_extension, with_exe: with_exe@, is_java_exe },
            ),
            ask@ == final(self)@.ask(),
    {
        match self.search {
            Search::Requested => {
                if exists {
                    self.search = Search::Accepted;
                } else {
                    match self.platform {
                        Platform::Windows => {
                            if has_extension {
                                self.search = if is_java_exe {
                                    Search::LookingUp
                                } else {
                                    Search::Rejected
                                };
                            } else {
                                self.candidate = with_exe;
                                self.search = Search::Extended;
                            }
                        },
                        _ => {
                            let bare = String::from_str("java");
                            self.search = if self.requested == bare {
                                Search::LookingUp
                            } else {
                                Search::Rejected
                            };
                        },
                    }
                }
            },
            Search::Extended => {
                self.search = if exists {
                    Search::Accepted
                } else if is_java_exe {
                    Search::LookingUp
                } else {
                    Search::Rejected
                };
            },
            Search::Found => {
                self.search = if exists {
                    Search::Accepted
                } else {
                    Search::Rejected
                };
            },
            _ => {},
        }
        self.ask()
    }

    /// Takes in whether the candidate exists. What the platform's path
    /// rules say of the candidate is found out here.
    pub fn on_probe(&mut self, exists: bool) -> (ask: Ask)
        ensures
            exists|facts: PathFacts| final(self)@ == old(self)@.probed(exists, facts),
            ask@ == final(self)@.ask(),
    {
        let has_extension = path_extension(self.candidate.as_str()).is_some();
        proof {
            reveal_strlit("exe");
            assert forall|i: int| 0 <= i < "exe"@.len() implies "exe"@[i] != '/' && "exe"@[i]
                != '\\' by {
                assert("exe"@[0] == 'e' && "exe"@[1] == 'x' && "exe"@[2] == 'e');
            }
        }
        let with_exe = path_with_extension(self.candidate.as_str(), "exe");
        let is_java_exe = match path_file_name(self.candidate.as_str()) {
            Some(name) => name == String::from_str("java.exe"),
            None => false,
        };
        let ghost facts = PathFacts { has_extension, with_exe: with_exe@, is_java_exe };
        let ask = self.decide(exists, has_extension, with_exe, is_java_exe);
        assert(self@ == old(self)@.probed(exists, facts));
        ask
    }

    /// Takes in the outcome of the lookup: what the program printed, or
    /// `None` if it could not be run or failed.
    pub fn on_lookup(&mut self, output: &Option<String>) -> (ask: Ask)
        ensures
            final(self)@ == old(self)@.looked_up(
                match *output {
                    Some(text) => first_listed(text@),
                    None => None,
                },
            ),
            ask@ == final(self)@.ask(),
    {
        match self.search {
            Search::LookingUp => {
                let found = match output {
                    Some(text) => first_path(text.as_str()),
                    None => None,
                };
                match found {
                    Some(path) => {
                        self.candidate = path;
                        self.search = match self.platform {
                            Platform::Windows => Search::Found,
                            _ => Search::Accepted,
                        };
                    },
                    None => {
                        self.search = match self.platform {
                            Platform::Windows => Search::Rejected,
                            _ => Search::Accepted,
                        };
                    },
                }
            },
            _ => {},
        }
        self.ask()
    }
}

/// A path that exists is taken as it is, on every platform.
pub proof fn lemma_existing_path_is_kept(platform: Platform, path: Seq<char>, facts: PathFacts)
    ensures
        SearchModel::initial(platform, path).probed(true, facts).ask() == AskModel::Accept(path),
{
}

/// Off Windows a missing path is given up with the message that names it,
/// unless it is the bare name `java`, which is looked up; whatever the
/// lookup finds is taken, and with nothing found the bare name is kept.
pub proof fn lemma_missing_path_elsewhere(
    platform: Platform,
    path: Seq<char>,
    facts: PathFacts,
    found: Option<Seq<char>>,
)
    requires
        !(platform is Windows),
    ensures
        ({
            let missing = SearchModel::initial(platform, path).probed(false, facts);
            &&& path != "java"@ ==> missing.ask() == AskModel::Reject(not_found(path))
            &&& path == "java"@ ==> missing.ask() == AskModel::Lookup && missing.looked_up(
                found,
            ).ask() == AskModel::Accept(
                match found {
                    Some(p) => p,
                    None => path,
                },
            )
        }),
{
}

/// On Windows nothing is accepted unseen: a search ends in acceptance only
/// on a probe that found the candidate.
pub proof fn lemma_windows_accepts_only_what_exists(
    m: SearchModel,
    exists: bool,
    facts: PathFacts,
    found: Option<Seq<char>>,
)
    requires
        m.platform is Windows,
        !m.settled(),
    ensures
        m.probed(exists, facts).search is Accepted ==> exists && m.probed(exists, facts).candidate
            == m.candidate,
        !(m.looked_up(found).search is Accepted),
{
}

/// A search that is over stays as it is.
pub proof fn lemma_settled_is_final(
    m: SearchModel,
    exists: bool,
    facts: PathFacts,
    found: Option<Seq<char>>,
)
    requires
        m.settled(),
    ensures
        m.probed(exists, facts) == m,
        m.looked_up(found) == m,
{
}

} // verus!
