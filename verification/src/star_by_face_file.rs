//! The client built from the file-upload lookup's response.
use vstd::prelude::*;
use vstd::string::StringExecFns;
use crate::error::StarByFaceError;
use crate::extract::{error_of, error_text, gender_list, gender_records, warning_of, warning_text};
use crate::text::res_str_view;
use crate::Gender;

verus! {

/// A snapshot of one file-upload lookup.  `Ok` holds the raw response body;
/// `Err` holds the upload failure's message, which is empty unless the
/// failure deserves its own text (a file that does not exist).  Every
/// accessor is a pure view over this snapshot.
pub struct StarByFaceFile {
    pub response: Result<String, String>,
    pub error_message: Result<String, String>,
}

impl StarByFaceFile {
    /// The stored response body or upload failure.
    pub open spec fn resp(self) -> Result<Seq<char>, Seq<char>> {
        res_str_view(self.response)
    }

    /// The error in force for this snapshot: the one the service reported,
    /// or the upload failure's own message when it has one.
    pub open spec fn err(self) -> Option<Seq<char>> {
        match self.resp() {
            Ok(b) => error_of(b),
            Err(e) => if e.len() == 0 {
                None
            } else {
                Some(e)
            },
        }
    }

    /// The serialized records of one gender; empty when there is no body.
    pub open spec fn list(self, female: bool) -> Seq<Seq<char>> {
        match self.resp() {
            Ok(b) => gender_list(b, female),
            Err(e) => Seq::empty(),
        }
    }

    /// The warning in force for this snapshot.
    pub open spec fn warn(self) -> Option<Seq<char>> {
        match self.resp() {
            Ok(b) => warning_of(b),
            Err(e) => None,
        }
    }

    /// The stored error message agrees with the stored response.
    pub open spec fn wf(self) -> bool {
        match self.resp() {
            Ok(b) => res_str_view(self.error_message) == (match error_of(b) {
                Some(m) => Ok::<Seq<char>, Seq<char>>(m),
                None => Err::<Seq<char>, Seq<char>>(Seq::empty()),
            }),
            Err(e) => res_str_view(self.error_message) == Err::<Seq<char>, Seq<char>>(e),
        }
    }

    /// Builds a snapshot from an upload's outcome: the fetched response body,
    /// or the upload failure's message (empty when the failure has no text of
    /// its own).
    pub fn new(response: Result<String, String>) -> (r: Self)
        ensures
            r.wf(),
            r.resp() == res_str_view(response),
    {
        let error_message = match &response {
            Ok(body) => match error_text(body.as_str()) {
                Some(m) => Ok(m),
                None => Err(String::new()),
            },
            Err(e) => Err(e.clone()),
        };
        StarByFaceFile { response, error_message }
    }

    fn is_error(&self) -> (r: Option<String>)
        requires
            self.wf(),
        ensures
            match r {
                Some(m) => self.err() == Some(m@),
                None => self.err() is None,
            },
    {
        match &self.error_message {
            Ok(message) => Some(message.clone()),
            Err(err) => if err.as_str().is_empty() {
                None
            } else {
                Some(err.clone())
            },
        }
    }

    fn records_of(&self, female: bool) -> (out: Vec<String>)
        ensures
            out.deep_view() == self.list(female),
    {
        match &self.response {
            Ok(body) => gender_records(body.as_str(), female),
            Err(_) => {
                let out: Vec<String> = Vec::new();
                assert(out.deep_view() =~= self.list(female));
                out
            },
        }
    }

    /// The warning embedded in the response, if any.
    pub fn warning(&self) -> (r: Option<String>)
        ensures
            match r {
                Some(m) => self.warn() == Some(m@),
                None => self.warn() is None,
            },
    {
        match &self.response {
            Ok(body) => warning_text(body.as_str()),
            Err(_) => None,
        }
    }

    /// All serialized records: the female section's, then the male section's.
    pub fn get_data(&self) -> (r: Result<Vec<String>, StarByFaceError>)
        requires
            self.wf(),
        ensures
            ({
                let fem = self.list(true);
                let mal = self.list(false);
                match self.err() {
                    Some(e) => r matches Err(StarByFaceError::Error(m)) && m@ == e,
                    None => if fem.len() + mal.len() == 0 {
                        r matches Err(StarByFaceError::Null(m)) && m@ == "null"@
                    } else {
                        r matches Ok(v) && v.deep_view() == fem + mal
                    },
                }
            }),
    {
        if let Some(error) = self.is_error() {
            return Err(StarByFaceError::Error(error));
        }
        let females = self.records_of(true);
        let males = self.records_of(false);
        let mut list: Vec<String> = Vec::new();
        let mut i: usize = 0;
        while i < females.len()
            invariant
                i <= females@.len(),
                list@ == females@.subrange(0, i as int),
            decreases females@.len() - i,
        {
            let s = &females[i];
            list.push(s.clone());
            assert(females@.subrange(0, i as int).push(females@[i as int]) =~= females@.subrange(
                0,
                i + 1 as int,
            ));
            i += 1;
        }
        assert(list@ =~= females@);
        let mut j: usize = 0;
        while j < males.len()
            invariant
                j <= males@.len(),
                list@ == females@ + males@.subrange(0, j as int),
            decreases males@.len() - j,
        {
            let s = &males[j];
            list.push(s.clone());
            assert((females@ + males@.subrange(0, j as int)).push(males@[j as int]) =~= females@
                + males@.subrange(0, j + 1 as int));
            j += 1;
        }
        assert(list@ =~= females@ + males@);
        if list.len() == 0 {
            assert(self.list(true).len() + self.list(false).len() == 0);
            Err(StarByFaceError::Null(String::from_str("null")))
        } else {
            assert(list.deep_view() =~= self.list(true) + self.list(false));
            Ok(list)
        }
    }

    /// The serialized records of the requested gender.
    pub fn get_data_by_gender(&self, gender: Gender) -> (r: Result<
        Vec<String>,
        StarByFaceError,
    >)
        requires
            self.wf(),
        ensures
            ({
                let l = self.list(gender matches Gender::FEMALE);
                match self.err() {
                    Some(e) => r matches Err(StarByFaceError::Error(m)) && m@ == e,
                    None => if l.len() == 0 {
                        r matches Err(StarByFaceError::Null(m)) && m@ == "null"@
                    } else {
                        r matches Ok(v) && v.deep_view() == l
                    },
                }
            }),
    {
        if let Some(error) = self.is_error() {
            return Err(StarByFaceError::Error(error));
        }
        let wanted = match gender {
            Gender::FEMALE => self.records_of(true),
            Gender::MALE => self.records_of(false),
        };
        if wanted.len() == 0 {
            Err(StarByFaceError::Null(String::from_str("null")))
        } else {
            Ok(wanted)
        }
    }

    /// The first record of each non-empty section: by the service's rendering
    /// order, the closest match of each gender.
    pub fn highest_similarity(&self) -> (r: Result<Vec<String>, StarByFaceError>)
        requires
            self.wf(),
        ensures
            ({
                let fem = self.list(true);
                let mal = self.list(false);
                let want = (if fem.len() > 0 {
                    seq![fem[0]]
                } else {
                    Seq::empty()
                }) + (if mal.len() > 0 {
                    seq![mal[0]]
                } else {
                    Seq::empty()
                });
                match self.err() {
                    Some(e) => r matches Err(StarByFaceError::Error(m)) && m@ == e,
                    None => if want.len() == 0 {
                        r matches Err(StarByFaceError::Null(m)) && m@ == "null"@
                    } else {
                        r matches Ok(v) && v.deep_view() == want
                    },
                }
            }),
    {
        if let Some(error) = self.is_error() {
            return Err(StarByFaceError::Error(error));
        }
        let females = self.records_of(true);
        let males = self.records_of(false);
        let mut list: Vec<String> = Vec::new();
        if females.len() > 0 {
            let s = &females[0];
            list.push(s.clone());
        }
        if males.len() > 0 {
            let s = &males[0];
            list.push(s.clone());
        }
        if list.len() == 0 {
            Err(StarByFaceError::Null(String::from_str("null")))
        } else {
            assert(list.deep_view() =~= ({
                let fem = self.list(true);
                let mal = self.list(false);
                (if fem.len() > 0 {
                    seq![fem[0]]
                } else {
                    Seq::empty()
                }) + (if mal.len() > 0 {
                    seq![mal[0]]
                } else {
                    Seq::empty()
                })
            }));
            Ok(list)
        }
    }

    /// The first record of the requested gender's section.
    pub fn highest_similarity_by_gender(&self, gender: Gender) -> (r: Result<
        String,
        StarByFaceError,
    >)
        requires
            self.wf(),
        ensures
            ({
                let l = self.list(gender matches Gender::FEMALE);
                match self.err() {
                    Some(e) => r matches Err(StarByFaceError::Error(m)) && m@ == e,
                    None => if l.len() == 0 {
                        r matches Err(StarByFaceError::Null(m)) && m@ == "null"@
                    } else {
                        r matches Ok(v) && v@ == l[0]
                    },
                }
            }),
    {
        if let Some(error) = self.is_error() {
            return Err(StarByFaceError::Error(error));
        }
        let wanted = match gender {
            Gender::FEMALE => self.records_of(true),
            Gender::MALE => self.records_of(false),
        };
        if wanted.len() == 0 {
            Err(StarByFaceError::Null(String::from_str("null")))
        } else {
            let s = &wanted[0];
            Ok(s.clone())
        }
    }

    /// The last record of each non-empty section: by the service's rendering
    /// order, the faintest match of each gender.
    pub fn lowest_similarity(&self) -> (r: Result<Vec<String>, StarByFaceError>)
        requires
            self.wf(),
        ensures
            ({
                let fem = self.list(true);
                let mal = self.list(false);
                let want = (if fem.len() > 0 {
                    seq![fem[fem.len() - 1]]
                } else {
                    Seq::empty()
                }) + (if mal.len() > 0 {
                    seq![mal[mal.len() - 1]]
                } else {
                    Seq::empty()
                });
                match self.err() {
                    Some(e) => r matches Err(StarByFaceError::Error(m)) && m@ == e,
                    None => if want.len() == 0 {
                        r matches Err(StarByFaceError::Null(m)) && m@ == "null"@
                    } else {
                        r matches Ok(v) && v.deep_view() == want
                    },
                }
            }),
    {
        if let Some(error) = self.is_error() {
            return Err(StarByFaceError::Error(error));
        }
        let females = self.records_of(true);
        let males = self.records_of(false);
        let mut list: Vec<String> = Vec::new();
        if females.len() > 0 {
            let s = &females[females.len() - 1];
            list.push(s.clone());
        }
        if males.len() > 0 {
            let s = &males[males.len() - 1];
            list.push(s.clone());
        }
        if list.len() == 0 {
            Err(StarByFaceError::Null(String::from_str("null")))
        } else {
            assert(list.deep_view() =~= ({
                let fem = self.list(true);
                let mal = self.list(false);
                (if fem.len() > 0 {
                    seq![fem[fem.len() - 1]]
                } else {
                    Seq::empty()
                }) + (if mal.len() > 0 {
                    seq![mal[mal.len() - 1]]
                } else {
                    Seq::empty()
                })
            }));
            Ok(list)
        }
    }

    /// The last record of the requested gender's section.
    pub fn lowest_similarity_by_gender(&self, gender: Gender) -> (r: Result<
        String,
        StarByFaceError,
    >)
        requires
            self.wf(),
        ensures
            ({
                let l = self.list(gender matches Gender::FEMALE);
                match self.err() {
                    Some(e) => r matches Err(StarByFaceError::Error(m)) && m@ == e,
                    None => if l.len() == 0 {
                        r matches Err(StarByFaceError::Null(m)) && m@ == "null"@
                    } else {
                        r matches Ok(v) && v@ == l[l.len() - 1]
                    },
                }
            }),
    {
        if let Some(error) = self.is_error() {
            return Err(StarByFaceError::Error(error));
        }
        let wanted = match gender {
            Gender::FEMALE => self.records_of(true),
            Gender::MALE => self.records_of(false),
        };
        if wanted.len() == 0 {
            Err(StarByFaceError::Null(String::from_str("null")))
        } else {
            let s = &wanted[wanted.len() - 1];
            Ok(s.clone())
        }
    }
}

} // verus!
