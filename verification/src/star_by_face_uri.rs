//! The client built from the URL-based lookup's response.
use vstd::prelude::*;
use vstd::string::StringExecFns;
use crate::error::StarByFaceError;
use crate::extract::{error_of, error_text, gender_list, gender_records, warning_of, warning_text};
use crate::text::opt_str_view;
use crate::Gender;

verus! {

/// A snapshot of one URL-based lookup: the raw response body, if the fetch
/// succeeded, and the error the service reported in it, if any.  Every
/// accessor is a pure view over this snapshot.
pub struct StarByFace {
    pub response: Option<String>,
    pub error_message: Option<String>,
}

impl StarByFace {
    /// The stored response body.
    pub open spec fn resp(self) -> Option<Seq<char>> {
        opt_str_view(self.response)
    }

    /// The error in force for this snapshot.
    pub open spec fn err(self) -> Option<Seq<char>> {
        match self.resp() {
            None => None,
            Some(b) => error_of(b),
        }
    }

    /// The serialized records of one gender; empty when the body is absent.
    pub open spec fn list(self, female: bool) -> Seq<Seq<char>> {
        match self.resp() {
            None => Seq::empty(),
            Some(b) => gender_list(b, female),
        }
    }

    /// The warning in force for this snapshot.
    pub open spec fn warn(self) -> Option<Seq<char>> {
        match self.resp() {
            None => None,
            Some(b) => warning_of(b),
        }
    }

    /// The stored error message agrees with the stored response.
    pub open spec fn wf(self) -> bool {
        opt_str_view(self.error_message) == self.err()
    }

    /// Builds a snapshot from a fetched response body; `None` stands for a
    /// fetch that failed.
    pub fn new(response: Option<String>) -> (r: Self)
        ensures
            r.wf(),
            r.resp() == opt_str_view(response),
    {
        let error_message = match &response {
            Some(body) => error_text(body.as_str()),
            None => None,
        };
        StarByFace { response, error_message }
    }

    fn is_error(&self) -> (r: Option<String>)
        requires
            self.wf(),
        ensures
            opt_str_view(r) == self.err(),
    {
        match &self.error_message {
            Some(message) => Some(message.clone()),
            None => None,
        }
    }

    fn records_of(&self, female: bool) -> (out: Vec<String>)
        ensures
            out.deep_view() == self.list(female),
    {
        match &self.response {
            Some(body) => gender_records(body.as_str(), female),
            None => {
                let out: Vec<String> = Vec::new();
                assert(out.deep_view() =~= self.list(female));
                out
            },
        }
    }

    /// The warning embedded in the response, if any.
    pub fn warning(&self) -> (r: Option<String>)
        ensures
            opt_str_view(r) == self.warn(),
    {
        match &self.response {
            Some(body) => warning_text(body.as_str()),
            None => None,
        }
    }

    /// All serialized records: the female section's, then the male section's.
    pub fn get_data(&self) -> (r: Result<Vec<String>, StarByFaceError>)
        requires
            self.wf(),
        ensures
            ({
                let fem = self.list(true);
                let mal = self.list(false);
                match self.err() {
                    Some(e) => r matches Err(StarByFaceError::Error(m)) && m@ == e,
                    None => if fem.len() + mal.len() == 0 {
                        r matches Err(StarByFaceError::Null(m)) && m@ == "null"@
                    } else {
                        r matches Ok(v) && v.deep_view() == fem + mal
                    },
                }
            }),
    {
        if let Some(error) = self.is_error() {
            return Err(StarByFaceError::Error(error));
        }
        let females = self.records_of(true);
        let males = self.records_of(false);
        let mut list: Vec<String> = Vec::new();
        let mut i: usize = 0;
        while i < females.len()
            invariant
                i <= females@.len(),
                list@ == females@.subrange(0, i as int),
            decreases females@.len() - i,
        {
            let s = &females[i];
            list.push(s.clone());
            assert(females@.subrange(0, i as int).push(females@[i as int]) =~= females@.subrange(
                0,
                i + 1 as int,
            ));
            i += 1;
        }
        assert(list@ =~= females@);
        let mut j: usize = 0;
        while j < males.len()
            invariant
                j <= males@.len(),
                list@ == females@ + males@.subrange(0, j as int),
            decreases males@.len() - j,
        {
            let s = &males[j];
            list.push(s.clone());
            assert((females@ + males@.subrange(0, j as int)).push(males@[j as int]) =~= females@
                + males@.subrange(0, j + 1 as int));
            j += 1;
        }
        assert(list@ =~= females@ + males@);
        if list.len() == 0 {
            assert(self.list(true).len() + self.list(false).len() == 0);
            Err(StarByFaceError::Null(String::from_str("null")))
        } else {
            assert(list.deep_view() =~= self.list(true) + self.list(false));
            Ok(list)
        }
    }

    /// The serialized records of the requested gender.
    pub fn get_data_by_gender(&self, gender: Gender) -> (r: Result<
        Vec<String>,
        StarByFaceError,
    >)
        requires
            self.wf(),
        ensures
            ({
                let l = self.list(gender matches Gender::FEMALE);
                match self.err() {
                    Some(e) => r matches Err(StarByFaceError::Error(m)) && m@ == e,
                    None => if l.len() == 0 {
                        r matches Err(StarByFaceError::Null(m)) && m@ == "null"@
                    } else {
                        r matches Ok(v) && v.deep_view() == l
                    },
                }
            }),
    {
        if let Some(error) = self.is_error() {
            return Err(StarByFaceError::Error(error));
        }
        let wanted = match gender {
            Gender::FEMALE => self.records_of(true),
            Gender::MALE => self.records_of(false),
        };
        if wanted.len() == 0 {
            Err(StarByFaceError::Null(String::from_str("null")))
        } else {
            Ok(wanted)
        }
    }

    /// The first record of each non-empty section: by the service's rendering
    /// order, the closest match of each gender.
    pub fn highest_similarity(&self) -> (r: Result<Vec<String>, StarByFaceError>)
        requires
            self.wf(),
        ensures
            ({
                let fem = self.list(true);
                let mal = self.list(false);
                let want = (if fem.len() > 0 {
                    seq![fem[0]]
                } else {
                    Seq::empty()
                }) + (if mal.len() > 0 {
                    seq![mal[0]]
                } else {
                    Seq::empty()
                });
                match self.err() {
                    Some(e) => r matches Err(StarByFaceError::Error(m)) && m@ == e,
                    None => if want.len() == 0 {
                        r matches Err(StarByFaceError::Null(m)) && m@ == "null"@
                    } else {
                        r matches Ok(v) && v.deep_view() == want
                    },
                }
            }),
    {
        if let Some(error) = self.is_error() {
            return Err(StarByFaceError::Error(error));
        }
        let females = self.records_of(true);
        let males = self.records_of(false);
        let mut list: Vec<String> = Vec::new();
        if females.len() > 0 {
            let s = &females[0];
            list.push(s.clone());
        }
        if males.len() > 0 {
            let s = &males[0];
            list.push(s.clone());
        }
        if list.len() == 0 {
            Err(StarByFaceError::Null(String::from_str("null")))
        } else {
            assert(list.deep_view() =~= ({
                let fem = self.list(true);
                let mal = self.list(false);
                (if fem.len() > 0 {
                    seq![fem[0]]
                } else {
                    Seq::empty()
                }) + (if mal.len() > 0 {
                    seq![mal[0]]
                } else {
                    Seq::empty()
                })
            }));
            Ok(list)
        }
    }

    /// The first record of the requested gender's section.
    pub fn highest_similarity_by_gender(&self, gender: Gender) -> (r: Result<
        String,
        StarByFaceError,
    >)
        requires
            self.wf(),
        ensures
            ({
                let l = self.list(gender matches Gender::FEMALE);
                match self.err() {
                    Some(e) => r matches Err(StarByFaceError::Error(m)) && m@ == e,
                    None => if l.len() == 0 {
                        r matches Err(StarByFaceError::Null(m)) && m@ == "null"@
                    } else {
                        r matches Ok(v) && v@ == l[0]
                    },
                }
            }),
    {
        if let Some(error) = self.is_error() {
            return Err(StarByFaceError::Error(error));
        }
        let wanted = match gender {
            Gender::FEMALE => self.records_of(true),
            Gender::MALE => self.records_of(false),
        };
        if wanted.len() == 0 {
            Err(StarByFaceError::Null(String::from_str("null")))
        } else {
            let s = &wanted[0];
            Ok(s.clone())
        }
    }

    /// The last record of each non-empty section: by the service's rendering
    /// order, the faintest match of each gender.
    pub fn lowest_similarity(&self) -> (r: Result<Vec<String>, StarByFaceError>)
        requires
            self.wf(),
        ensures
            ({
                let fem = self.list(true);
                let mal = self.list(false);
                let want = (if fem.len() > 0 {
                    seq![fem[fem.len() - 1]]
                } else {
                    Seq::empty()
                }) + (if mal.len() > 0 {
                    seq![mal[mal.len() - 1]]
                } else {
                    Seq::empty()
                });
                match self.err() {
                    Some(e) => r matches Err(StarByFaceError::Error(m)) && m@ == e,
                    None => if want.len() == 0 {
                        r matches Err(StarByFaceError::Null(m)) && m@ == "null"@
                    } else {
                        r matches Ok(v) && v.deep_view() == want
                    },
                }
            }),
    {
        if let Some(error) = self.is_error() {
            return Err(StarByFaceError::Error(error));
        }
        let females = self.records_of(true);
        let males = self.records_of(false);
        let mut list: Vec<String> = Vec::new();
        if females.len() > 0 {
            let s = &females[females.len() - 1];
            list.push(s.clone());
        }
        if males.len() > 0 {
            let s = &males[males.len() - 1];
            list.push(s.clone());
        }
        if list.len() == 0 {
            Err(StarByFaceError::Null(String::from_str("null")))
        } else {
            assert(list.deep_view() =~= ({
                let fem = self.list(true);
                let mal = self.list(false);
                (if fem.len() > 0 {
                    seq![fem[fem.len() - 1]]
                } else {
                    Seq::empty()
                }) + (if mal.len() > 0 {
                    seq![mal[mal.len() - 1]]
                } else {
                    Seq::empty()
                })
            }));
            Ok(list)
        }
    }

    /// The last record of the requested gender's section.
    pub fn lowest_similarity_by_gender(&self, gender: Gender) -> (r: Result<
        String,
        StarByFaceError,
    >)
        requires
            self.wf(),
        ensures
            ({
                let l = self.list(gender matches Gender::FEMALE);
                match self.err() {
                    Some(e) => r matches Err(StarByFaceError::Error(m)) && m@ == e,
                    None => if l.len() == 0 {
                        r matches Err(StarByFaceError::Null(m)) && m@ == "null"@
                    } else {
                        r matches Ok(v) && v@ == l[l.len() - 1]
                    },
                }
            }),
    {
        if let Some(error) = self.is_error() {
            return Err(StarByFaceError::Error(error));
        }
        let wanted = match gender {
            Gender::FEMALE => self.records_of(true),
            Gender::MALE => self.records_of(false),
        };
        if wanted.len() == 0 {
            Err(StarByFaceError::Null(String::from_str("null")))
        } else {
            let s = &wanted[wanted.len() - 1];
            Ok(s.clone())
        }
    }
}

} // verus!
