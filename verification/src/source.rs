//! Selecting a font from a source of installed fonts.
//!
//! A source enumerates families and describes faces; how it does so is its
//! own affair. What is decided here is which family name to ask for, which
//! face of a family to take, and when to fall back to the next family.

use vstd::prelude::*;
use crate::descriptor::{DefaultFamilies, FamilySpec, Properties, Spec};
use crate::error::SelectionError;
use crate::handle::{FamilyHandle, Handle};
use crate::matching::{find_best_match, is_best_match, MatchFields};

verus! {

/// What selection reads of a loaded face.
#[derive(Clone, Debug, PartialEq, Eq)]
pub struct FaceDescription {
    pub postscript_name: String,
    pub fields: MatchFields,
}

/// The family name that a family spec stands for: the name itself, or the
/// default name of the generic family.
pub open spec fn resolved_name(family: FamilySpec, defaults: DefaultFamilies) -> Seq<char> {
    match family {
        FamilySpec::Name(name) => name@,
        FamilySpec::Serif => defaults.serif@,
        FamilySpec::SansSerif => defaults.sans_serif@,
        FamilySpec::Monospace => defaults.monospace@,
        FamilySpec::Cursive => defaults.cursive@,
        FamilySpec::Fantasy => defaults.fantasy@,
    }
}

impl DefaultFamilies {
    /// The usual default families: Times New Roman, Arial, Courier New,
    /// Comic Sans MS and Papyrus.
    pub fn new() -> (r: DefaultFamilies)
        ensures
            r.serif@ == "Times New Roman"@,
            r.sans_serif@ == "Arial"@,
            r.monospace@ == "Courier New"@,
            r.cursive@ == "Comic Sans MS"@,
            r.fantasy@ == "Papyrus"@,
    {
        DefaultFamilies {
            serif: "Times New Roman".to_owned(),
            sans_serif: "Arial".to_owned(),
            monospace: "Courier New".to_owned(),
            cursive: "Comic Sans MS".to_owned(),
            fantasy: "Papyrus".to_owned(),
        }
    }

    /// The family name to ask a source for.
    pub fn resolve(&self, family: &FamilySpec) -> (r: String)
        ensures
            r@ == resolved_name(*family, *self),
    {
        match family {
            FamilySpec::Name(name) => name.clone(),
            FamilySpec::Serif => self.serif.clone(),
            FamilySpec::SansSerif => self.sans_serif.clone(),
            FamilySpec::Monospace => self.monospace.clone(),
            FamilySpec::Cursive => self.cursive.clone(),
            FamilySpec::Fantasy => self.fantasy.clone(),
        }
    }
}

/// The face of `family` that a match over `candidates` selects: the face at
/// the index of the best match, where there is a candidate and the family
/// has a face at that index.
pub open spec fn selected(
    family: FamilyHandle,
    candidates: Seq<MatchFields>,
    query: Properties,
    handle: Handle,
) -> bool {
    exists|index: int|
        is_best_match(candidates, query, index) && index < family.fonts@.len() && handle
            == #[trigger] family.fonts@[index]
}

/// Picks from `family` the face whose fields in `candidates` match `query`
/// best. `candidates` holds the fields of the family's faces, in their
/// order. There is no face to pick where there is no candidate, or where the
/// family has no face at the index of the best match.
pub fn select_in_family(family: FamilyHandle, candidates: &[MatchFields], query: &Properties) -> (r:
    Option<Handle>)
    ensures
        match r {
            Some(handle) => selected(family, candidates@, *query, handle),
            None => forall|index: int|
                is_best_match(candidates@, *query, index) ==> index >= family.fonts@.len(),
        },
{
    match find_best_match(candidates, query) {
        Ok(index) => {
            let mut fonts = family.fonts;
            if index < fonts.len() {
                let handle = fonts.remove(index);
                assert(is_best_match(candidates@, *query, index as int) && handle
                    == family.fonts@[index as int]);
                Some(handle)
            } else {
                proof {
                    assert forall|other: int| is_best_match(candidates@, *query, other) implies other
                        >= family.fonts@.len() by {
                        crate::matching::lemma_best_match_is_unique(
                            candidates@,
                            *query,
                            index as int,
                            other,
                        );
                    }
                }
                None
            }
        },
        Err(_) => None,
    }
}

/// The first place in `names` that holds `name`.
pub open spec fn is_first_occurrence(names: Seq<String>, name: Seq<char>, index: int) -> bool {
    &&& 0 <= index < names.len()
    &&& names[index]@ == name
    &&& forall|j: int| 0 <= j < index ==> (#[trigger] names[j])@ != name
}

/// Finds the first face with the PostScript name `name`: its index in
/// `names`, which holds the PostScript names of a family's faces in their
/// order.
pub fn find_postscript_name(names: &[String], name: &String) -> (r: Option<usize>)
    ensures
        match r {
            Some(index) => is_first_occurrence(names@, name@, index as int),
            None => forall|j: int| 0 <= j < names@.len() ==> (#[trigger] names@[j])@ != name@,
        },
{
    let mut index: usize = 0;
    while index < names.len()
        invariant
            index <= names@.len(),
            forall|j: int| 0 <= j < index ==> (#[trigger] names@[j])@ != name@,
        decreases names@.len() - index,
    {
        if names[index] == *name {
            return Some(index);
        }
        index = index + 1;
    }
    None
}

/// The face at the first place in `names` that holds `name`, where the
/// family has a face at that place.
pub open spec fn named(family: FamilyHandle, names: Seq<String>, name: Seq<char>, handle: Handle) -> bool {
    exists|index: int|
        is_first_occurrence(names, name, index) && index < family.fonts@.len() && handle
            == #[trigger] family.fonts@[index]
}

/// Picks from `family` the first face with the PostScript name `name`.
/// `names` holds the PostScript names of the family's faces, in their order.
/// There is no face to pick where no face bears the name, or where the
/// family has no face at the place where the name stands.
pub fn select_in_family_by_postscript_name(
    family: FamilyHandle,
    names: &[String],
    name: &String,
) -> (r: Option<Handle>)
    ensures
        match r {
            Some(handle) => named(family, names@, name@, handle),
            None => forall|index: int|
                is_first_occurrence(names@, name@, index) ==> index >= family.fonts@.len(),
        },
{
    match find_postscript_name(names, name) {
        Some(index) => {
            let mut fonts = family.fonts;
            if index < fonts.len() {
                let handle = fonts.remove(index);
                assert(is_first_occurrence(names@, name@, index as int) && handle
                    == family.fonts@[index as int]);
                Some(handle)
            } else {
                assert forall|other: int| is_first_occurrence(names@, name@, other) implies other
                    >= family.fonts@.len() by {
                    if other < index {
                        assert(names@[other]@ != name@);
                    } else if index < other {
                        assert(names@[index as int]@ != name@);
                    }
                }
                None
            }
        },
        None => None,
    }
}

/// What a family that the source has comes to in a match.
#[derive(Clone, Debug, PartialEq, Eq)]
pub enum FamilyOutcome {
    /// The family gave this face: the match is over.
    Selected(Handle),
    /// A face of the family could not be described: the match fails.
    Failed(SelectionError),
    /// The family gave no face: the next family is tried.
    Exhausted,
}

/// Decides what a family comes to, from its faces and from what describing
/// them gave: a failure to describe ends the match with that error; else the
/// best-matching face is selected; a family that gives no face is passed
/// over.
pub fn decide_family(
    family: FamilyHandle,
    described: Result<Vec<MatchFields>, SelectionError>,
    query: &Properties,
) -> (r: FamilyOutcome)
    ensures
        match described {
            Err(e) => r == FamilyOutcome::Failed(e),
            Ok(candidates) => match r {
                FamilyOutcome::Selected(handle) => selected(family, candidates@, *query, handle),
                FamilyOutcome::Exhausted => forall|index: int|
                    is_best_match(candidates@, *query, index) ==> index >= family.fonts@.len(),
                FamilyOutcome::Failed(_) => false,
            },
        },
{
    match described {
        Err(e) => FamilyOutcome::Failed(e),
        Ok(candidates) => match select_in_family(family, candidates.as_slice(), query) {
            Some(handle) => FamilyOutcome::Selected(handle),
            None => FamilyOutcome::Exhausted,
        },
    }
}

/// The source describes the face behind `handle`: `describe`, the source's
/// method of that name, may answer with a description of it.
pub open spec fn is_described<
    S: ?Sized,
    D: Fn(&S, &Handle) -> Result<FaceDescription, SelectionError>,
>(
    describe: D,
    source: &S,
    handle: Handle,
) -> bool {
    exists|description: FaceDescription| #[trigger]
        call_ensures(
            describe,
            (source, &handle),
            Ok::<FaceDescription, SelectionError>(description),
        )
}

/// The source describes the face behind `handle` by these fields: they are
/// those of a description that `describe`, the source's method of that name,
/// may answer with.
pub open spec fn describes_fields<
    S: ?Sized,
    D: Fn(&S, &Handle) -> Result<FaceDescription, SelectionError>,
>(
    describe: D,
    source: &S,
    handle: Handle,
    fields: MatchFields,
) -> bool {
    exists|description: FaceDescription|
        description.fields == fields && #[trigger] call_ensures(
            describe,
            (source, &handle),
            Ok::<FaceDescription, SelectionError>(description),
        )
}

/// The source describes the face behind `handle` by this PostScript name: it
/// is that of a description that `describe`, the source's method of that
/// name, may answer with.
pub open spec fn describes_name<
    S: ?Sized,
    D: Fn(&S, &Handle) -> Result<FaceDescription, SelectionError>,
>(
    describe: D,
    source: &S,
    handle: Handle,
    name: String,
) -> bool {
    exists|description: FaceDescription|
        description.postscript_name == name && #[trigger] call_ensures(
            describe,
            (source, &handle),
            Ok::<FaceDescription, SelectionError>(description),
        )
}

/// The source describes the face behind `handle` by this PostScript name and
/// these fields: they are those of one description that `describe`, the
/// source's method of that name, may answer with.
pub open spec fn describes_as<
    S: ?Sized,
    D: Fn(&S, &Handle) -> Result<FaceDescription, SelectionError>,
>(
    describe: D,
    source: &S,
    handle: Handle,
    name: String,
    fields: MatchFields,
) -> bool {
    exists|description: FaceDescription|
        description.postscript_name == name && description.fields == fields
            && #[trigger] call_ensures(
            describe,
            (source, &handle),
            Ok::<FaceDescription, SelectionError>(description),
        )
}

/// The face at `index` is the first of `fonts` that the source does not
/// describe, and `error` is what describing it gave. `describe` is the
/// source's method of that name.
pub open spec fn fails_to_describe<
    S: ?Sized,
    D: Fn(&S, &Handle) -> Result<FaceDescription, SelectionError>,
>(
    describe: D,
    source: &S,
    fonts: Seq<Handle>,
    index: int,
    error: SelectionError,
) -> bool {
    &&& 0 <= index < fonts.len()
    &&& call_ensures(
        describe,
        (source, &fonts[index]),
        Err::<FaceDescription, SelectionError>(error),
    )
    &&& forall|i: int| 0 <= i < index ==> #[trigger] is_described(describe, source, fonts[i])
}

/// The source has, under `family_name`, a family whose first face of the
/// PostScript name `postscript_name` is the one behind `handle`.
/// `family_by_name` and `names_for_family` are the source's methods that give
/// a family by its name and the PostScript names of a family's faces.
pub open spec fn found_in_family<
    S: ?Sized,
    F: Fn(&S, &str) -> Result<FamilyHandle, SelectionError>,
    N: Fn(&S, &FamilyHandle) -> Result<Vec<String>, SelectionError>,
>(
    family_by_name: F,
    names_for_family: N,
    source: &S,
    family_name: Seq<char>,
    postscript_name: Seq<char>,
    handle: Handle,
) -> bool {
    exists|name: &str, family: FamilyHandle, names: Vec<String>|
        {
            &&& name@ == family_name
            &&& #[trigger] call_ensures(
                family_by_name,
                (source, name),
                Ok::<FamilyHandle, SelectionError>(family),
            )
            &&& #[trigger] call_ensures(
                names_for_family,
                (source, &family),
                Ok::<Vec<String>, SelectionError>(names),
            )
            &&& named(family, names@, postscript_name, handle)
        }
}

/// The faces of `family` give no face of the PostScript name
/// `postscript_name`: they cannot be described, or none that the family
/// holds bears the name. `names_for_family` is the source's method that
/// gives the PostScript names of a family's faces.
pub open spec fn names_pass_over<
    S: ?Sized,
    N: Fn(&S, &FamilyHandle) -> Result<Vec<String>, SelectionError>,
>(
    names_for_family: N,
    source: &S,
    family: FamilyHandle,
    postscript_name: Seq<char>,
) -> bool {
    exists|described: Result<Vec<String>, SelectionError>|
        {
            &&& #[trigger] call_ensures(
                names_for_family,
                (source, &family),
                described,
            )
            &&& match described {
                Err(_) => true,
                Ok(names) => forall|index: int|
                    is_first_occurrence(names@, postscript_name, index) ==> index
                        >= family.fonts@.len(),
            }
        }
}

/// The family installed under `family_name` gives no face of the PostScript
/// name `postscript_name`: the source does not have the family, or its faces
/// give none. `family_by_name` and `names_for_family` are the source's
/// methods that give a family by its name and the PostScript names of a
/// family's faces.
pub open spec fn passed_over<
    S: ?Sized,
    F: Fn(&S, &str) -> Result<FamilyHandle, SelectionError>,
    N: Fn(&S, &FamilyHandle) -> Result<Vec<String>, SelectionError>,
>(
    family_by_name: F,
    names_for_family: N,
    source: &S,
    family_name: Seq<char>,
    postscript_name: Seq<char>,
) -> bool {
    exists|name: &str, had: Result<FamilyHandle, SelectionError>|
        {
            &&& name@ == family_name
            &&& #[trigger] call_ensures(family_by_name, (source, name), had)
            &&& match had {
                Err(_) => true,
                Ok(family) => names_pass_over(names_for_family, source, family, postscript_name),
            }
        }
}

/// The faces of `family` give no face to a match for `query`: described by
/// their fields, they hold no best match. `fields_for_family` is the source's
/// method that gives the fields of a family's faces.
pub open spec fn fields_pass_over<
    S: ?Sized,
    M: Fn(&S, &FamilyHandle) -> Result<Vec<MatchFields>, SelectionError>,
>(
    fields_for_family: M,
    source: &S,
    family: FamilyHandle,
    query: Properties,
) -> bool {
    exists|fields: Vec<MatchFields>|
        {
            &&& #[trigger] call_ensures(
                fields_for_family,
                (source, &family),
                Ok::<Vec<MatchFields>, SelectionError>(fields),
            )
            &&& forall|index: int|
                is_best_match(fields@, query, index) ==> index >= family.fonts@.len()
        }
}

/// The family installed under `family_name` gives no face to a match for
/// `query`: the source does not have the family, or its faces hold no best
/// match. `family_by_name` and `fields_for_family` are the source's methods
/// that give a family by its name and the fields of a family's faces.
pub open spec fn match_passed_over<
    S: ?Sized,
    F: Fn(&S, &str) -> Result<FamilyHandle, SelectionError>,
    M: Fn(&S, &FamilyHandle) -> Result<Vec<MatchFields>, SelectionError>,
>(
    family_by_name: F,
    fields_for_family: M,
    source: &S,
    family_name: Seq<char>,
    query: Properties,
) -> bool {
    exists|name: &str, had: Result<FamilyHandle, SelectionError>|
        {
            &&& name@ == family_name
            &&& #[trigger] call_ensures(family_by_name, (source, name), had)
            &&& match had {
                Err(_) => true,
                Ok(family) => fields_pass_over(fields_for_family, source, family, query),
            }
        }
}

/// The source has, under `family_name`, a family of which the face behind
/// `handle` matches `query` best. `family_by_name` and `fields_for_family`
/// are the source's methods that give a family by its name and the fields of
/// a family's faces.
pub open spec fn matched_in_family<
    S: ?Sized,
    F: Fn(&S, &str) -> Result<FamilyHandle, SelectionError>,
    M: Fn(&S, &FamilyHandle) -> Result<Vec<MatchFields>, SelectionError>,
>(
    family_by_name: F,
    fields_for_family: M,
    source: &S,
    family_name: Seq<char>,
    query: Properties,
    handle: Handle,
) -> bool {
    exists|name: &str, family: FamilyHandle, fields: Vec<MatchFields>|
        {
            &&& name@ == family_name
            &&& #[trigger] call_ensures(
                family_by_name,
                (source, name),
                Ok::<FamilyHandle, SelectionError>(family),
            )
            &&& #[trigger] call_ensures(
                fields_for_family,
                (source, &family),
                Ok::<Vec<MatchFields>, SelectionError>(fields),
            )
            &&& selected(family, fields@, query, handle)
        }
}

/// The source has a family under `family_name`, and describing its faces
/// gave `error`. `family_by_name` and `fields_for_family` are the source's
/// methods that give a family by its name and the fields of a family's faces.
pub open spec fn match_failed_in_family<
    S: ?Sized,
    F: Fn(&S, &str) -> Result<FamilyHandle, SelectionError>,
    M: Fn(&S, &FamilyHandle) -> Result<Vec<MatchFields>, SelectionError>,
>(
    family_by_name: F,
    fields_for_family: M,
    source: &S,
    family_name: Seq<char>,
    error: SelectionError,
) -> bool {
    exists|name: &str, family: FamilyHandle|
        {
            &&& name@ == family_name
            &&& #[trigger] call_ensures(
                family_by_name,
                (source, name),
                Ok::<FamilyHandle, SelectionError>(family),
            )
            &&& call_ensures(
                fields_for_family,
                (source, &family),
                Err::<Vec<MatchFields>, SelectionError>(error),
            )
        }
}

/// What a match over `families` may come to, given what the source answers.
/// A handle is the best match of the first family that is not passed over.
/// An error is `NotFound`, where every family is passed over, or what
/// describing the faces of the first family not passed over gave. Each family
/// is asked for under the name that `defaults` resolves it to.
pub open spec fn best_match_result<
    S: ?Sized,
    F: Fn(&S, &str) -> Result<FamilyHandle, SelectionError>,
    M: Fn(&S, &FamilyHandle) -> Result<Vec<MatchFields>, SelectionError>,
>(
    family_by_name: F,
    fields_for_family: M,
    source: &S,
    families: Seq<FamilySpec>,
    defaults: DefaultFamilies,
    query: Properties,
    r: Result<Handle, SelectionError>,
) -> bool {
    match r {
        Ok(handle) => exists|i: int|
            {
                &&& 0 <= i < families.len()
                &&& #[trigger] matched_in_family(
                    family_by_name,
                    fields_for_family,
                    source,
                    resolved_name(families[i], defaults),
                    query,
                    handle,
                )
                &&& forall|j: int|
                    0 <= j < i ==> #[trigger] match_passed_over(
                        family_by_name,
                        fields_for_family,
                        source,
                        resolved_name(families[j], defaults),
                        query,
                    )
            },
        Err(e) => {
            ||| e == SelectionError::NotFound && forall|j: int|
                0 <= j < families.len() ==> #[trigger] match_passed_over(
                    family_by_name,
                    fields_for_family,
                    source,
                    resolved_name(families[j], defaults),
                    query,
                )
            ||| exists|i: int|
                {
                    &&& 0 <= i < families.len()
                    &&& #[trigger] match_failed_in_family(
                        family_by_name,
                        fields_for_family,
                        source,
                        resolved_name(families[i], defaults),
                        e,
                    )
                    &&& forall|j: int|
                        0 <= j < i ==> #[trigger] match_passed_over(
                            family_by_name,
                            fields_for_family,
                            source,
                            resolved_name(families[j], defaults),
                            query,
                        )
                }
        },
    }
}

/// Where the source has none of the families listed, the match ends in
/// `NotFound`: no family can give a face, and none can fail to be described.
pub proof fn lemma_unresolved_families_give_not_found<
    S: ?Sized,
    F: Fn(&S, &str) -> Result<FamilyHandle, SelectionError>,
    M: Fn(&S, &FamilyHandle) -> Result<Vec<MatchFields>, SelectionError>,
>(
    family_by_name: F,
    fields_for_family: M,
    source: &S,
    families: Seq<FamilySpec>,
    defaults: DefaultFamilies,
    query: Properties,
    r: Result<Handle, SelectionError>,
)
    requires
        best_match_result(family_by_name, fields_for_family, source, families, defaults, query, r),
        forall|j: int, name: &str, had: Result<FamilyHandle, SelectionError>|
            #![trigger
                resolved_name(families[j], defaults),
                call_ensures(family_by_name, (source, name), had),
            ]
            0 <= j < families.len() && name@ == resolved_name(families[j], defaults)
                && call_ensures(family_by_name, (source, name), had) ==> had is Err,
    ensures
        r == Err::<Handle, SelectionError>(SelectionError::NotFound),
{
}

/// A handle that a match gives is a face of a family listed: the source has
/// the family under its resolved name, and the handle is among its faces.
pub proof fn lemma_match_is_a_face_of_a_family_listed<
    S: ?Sized,
    F: Fn(&S, &str) -> Result<FamilyHandle, SelectionError>,
    M: Fn(&S, &FamilyHandle) -> Result<Vec<MatchFields>, SelectionError>,
>(
    family_by_name: F,
    fields_for_family: M,
    source: &S,
    families: Seq<FamilySpec>,
    defaults: DefaultFamilies,
    query: Properties,
    handle: Handle,
)
    requires
        best_match_result(
            family_by_name,
            fields_for_family,
            source,
            families,
            defaults,
            query,
            Ok::<Handle, SelectionError>(handle),
        ),
    ensures
        exists|i: int, name: &str, family: FamilyHandle|
            #![trigger
                resolved_name(families[i], defaults),
                call_ensures(
                    family_by_name,
                    (source, name),
                    Ok::<FamilyHandle, SelectionError>(family),
                ),
            ]
            {
                &&& 0 <= i < families.len()
                &&& name@ == resolved_name(families[i], defaults)
                &&& call_ensures(
                    family_by_name,
                    (source, name),
                    Ok::<FamilyHandle, SelectionError>(family),
                )
                &&& family.fonts@.contains(handle)
            },
{
    let i = choose|i: int|
        {
            &&& 0 <= i < families.len()
            &&& #[trigger] matched_in_family(
                family_by_name,
                fields_for_family,
                source,
                resolved_name(families[i], defaults),
                query,
                handle,
            )
        };
    let (name, family, fields) = choose|name: &str, family: FamilyHandle, fields: Vec<MatchFields>|
        {
            &&& name@ == resolved_name(families[i], defaults)
            &&& #[trigger] call_ensures(
                family_by_name,
                (source, name),
                Ok::<FamilyHandle, SelectionError>(family),
            )
            &&& #[trigger] call_ensures(
                fields_for_family,
                (source, &family),
                Ok::<Vec<MatchFields>, SelectionError>(fields),
            )
            &&& selected(family, fields@, query, handle)
        };
    assert(family.fonts@.contains(handle));
}

/// A match that ends in `NotFound` has passed over every family listed: no
/// family gave a face. This holds of a source that never gives `NotFound`
/// for the faces of a family that it has; one that does may end the match
/// with it at the first such family.
pub proof fn lemma_not_found_means_no_family_gave_a_face<
    S: ?Sized,
    F: Fn(&S, &str) -> Result<FamilyHandle, SelectionError>,
    M: Fn(&S, &FamilyHandle) -> Result<Vec<MatchFields>, SelectionError>,
>(
    family_by_name: F,
    fields_for_family: M,
    source: &S,
    families: Seq<FamilySpec>,
    defaults: DefaultFamilies,
    query: Properties,
    j: int,
)
    requires
        best_match_result(
            family_by_name,
            fields_for_family,
            source,
            families,
            defaults,
            query,
            Err::<Handle, SelectionError>(SelectionError::NotFound),
        ),
        0 <= j < families.len(),
        forall|family: FamilyHandle|
            !#[trigger] call_ensures(
                fields_for_family,
                (source, &family),
                Err::<Vec<MatchFields>, SelectionError>(SelectionError::NotFound),
            ),
    ensures
        match_passed_over(
            family_by_name,
            fields_for_family,
            source,
            resolved_name(families[j], defaults),
            query,
        ),
{
}

/// A source of installed fonts.
pub trait Source {
    /// The names of all installed families.
    fn all_families(&self) -> Result<Vec<String>, SelectionError>;

    /// The family installed under `family_name`.
    fn select_family_by_name(&self, family_name: &str) -> Result<FamilyHandle, SelectionError>;

    /// Loads the face behind `handle` far enough to describe it.
    fn describe(&self, handle: &Handle) -> Result<FaceDescription, SelectionError>;

    /// The family that a family spec stands for: what the source answers when
    /// asked for the name that `defaults` resolves the spec to.
    fn select_family_by_spec(&self, family: &FamilySpec, defaults: &DefaultFamilies) -> (r: Result<
        FamilyHandle,
        SelectionError,
    >)
        ensures
            exists|name: &str|
                name@ == resolved_name(*family, *defaults) && #[trigger] call_ensures(
                    Self::select_family_by_name,
                    (self, name),
                    r,
                ),
    {
        let name = defaults.resolve(family);
        self.select_family_by_name(name.as_str())
    }

    /// Describes each face of `family`, in order, and gives the descriptions
    /// by column: the PostScript names and the fields that matching reads.
    /// The first face that cannot be described ends the call with its error.
    /// A family without faces gives empty columns and no error.
    fn describe_family(&self, family: &FamilyHandle) -> (r: Result<
        (Vec<String>, Vec<MatchFields>),
        SelectionError,
    >)
        ensures
            match r {
                Ok((names, fields)) => {
                    &&& names@.len() == family.fonts@.len()
                    &&& fields@.len() == family.fonts@.len()
                    &&& forall|i: int|
                        0 <= i < family.fonts@.len() ==> #[trigger] describes_as(
                            Self::describe,
                            self,
                            family.fonts@[i],
                            names@[i],
                            fields@[i],
                        )
                },
                Err(e) => exists|i: int|
                    0 <= i < family.fonts@.len() && #[trigger] fails_to_describe(
                        Self::describe,
                        self,
                        family.fonts@,
                        i,
                        e,
                    ),
            },
    {
        let mut names: Vec<String> = Vec::new();
        let mut fields: Vec<MatchFields> = Vec::new();
        let mut index: usize = 0;
        while index < family.fonts.len()
            invariant
                index <= family.fonts@.len(),
                names@.len() == index,
                fields@.len() == index,
                forall|i: int|
                    0 <= i < index ==> #[trigger] describes_as(
                        Self::describe,
                        self,
                        family.fonts@[i],
                        names@[i],
                        fields@[i],
                    ),
                forall|i: int|
                    0 <= i < index ==> #[trigger] is_described(
                        Self::describe,
                        self,
                        family.fonts@[i],
                    ),
            decreases family.fonts@.len() - index,
        {
            let described = self.describe(&family.fonts[index]);
            match described {
                Ok(description) => {
                    assert(call_ensures(
                        Self::describe,
                        (self, &family.fonts@[index as int]),
                        Ok::<FaceDescription, SelectionError>(description),
                    ));
                    assert(is_described(Self::describe, self, family.fonts@[index as int]));
                    names.push(description.postscript_name);
                    fields.push(description.fields);
                    assert(describes_as(
                        Self::describe,
                        self,
                        family.fonts@[index as int],
                        names@[index as int],
                        fields@[index as int],
                    ));
                },
                Err(e) => {
                    assert(fails_to_describe(
                        Self::describe,
                        self,
                        family.fonts@,
                        index as int,
                        e,
                    ));
                    return Err(e);
                },
            }
            index = index + 1;
        }
        Ok((names, fields))
    }

    /// The fields that matching reads, for each face of `family` in order:
    /// what the source describes each face by. The first face that cannot be
    /// described ends the call with its error. A family without faces gives
    /// no fields and no error.
    fn select_match_fields_for_family(&self, family: &FamilyHandle) -> (r: Result<
        Vec<MatchFields>,
        SelectionError,
    >)
        ensures
            match r {
                Ok(fields) => {
                    &&& fields@.len() == family.fonts@.len()
                    &&& forall|i: int|
                        0 <= i < fields@.len() ==> describes_fields(
                            Self::describe,
                            self,
                            family.fonts@[i],
                            #[trigger] fields@[i],
                        )
                },
                Err(e) => exists|i: int|
                    0 <= i < family.fonts@.len() && #[trigger] fails_to_describe(
                        Self::describe,
                        self,
                        family.fonts@,
                        i,
                        e,
                    ),
            },
    {
        match self.describe_family(family) {
            Ok((names, fields)) => {
                assert forall|i: int| 0 <= i < fields@.len() implies describes_fields(
                    Self::describe,
                    self,
                    family.fonts@[i],
                    #[trigger] fields@[i],
                ) by {
                    assert(describes_as(
                        Self::describe,
                        self,
                        family.fonts@[i],
                        names@[i],
                        fields@[i],
                    ));
                }
                Ok(fields)
            },
            Err(e) => Err(e),
        }
    }

    /// The PostScript name of each face of `family`, in order: the name that
    /// the source describes each face by. The first face that cannot be
    /// described ends the call with its error. A family without faces gives
    /// no names and no error.
    fn select_postscript_names_for_family(&self, family: &FamilyHandle) -> (r: Result<
        Vec<String>,
        SelectionError,
    >)
        ensures
            match r {
                Ok(names) => {
                    &&& names@.len() == family.fonts@.len()
                    &&& forall|i: int|
                        0 <= i < names@.len() ==> describes_name(
                            Self::describe,
                            self,
                            family.fonts@[i],
                            #[trigger] names@[i],
                        )
                },
                Err(e) => exists|i: int|
                    0 <= i < family.fonts@.len() && #[trigger] fails_to_describe(
                        Self::describe,
                        self,
                        family.fonts@,
                        i,
                        e,
                    ),
            },
    {
        match self.describe_family(family) {
            Ok((names, fields)) => {
                assert forall|i: int| 0 <= i < names@.len() implies describes_name(
                    Self::describe,
                    self,
                    family.fonts@[i],
                    #[trigger] names@[i],
                ) by {
                    assert(describes_as(
                        Self::describe,
                        self,
                        family.fonts@[i],
                        names@[i],
                        fields@[i],
                    ));
                }
                Ok(names)
            },
            Err(e) => Err(e),
        }
    }

    /// Looks for the face with the given PostScript name by going through
    /// every family and every face in it: the first face in enumeration
    /// order that bears the name. A family that cannot be had or described is
    /// passed over. An error in enumerating the families is handed on;
    /// `NotFound` says that every family was passed over or had no face of
    /// that name. Sources with an index of their own do better by it.
    fn select_by_postscript_name(&self, postscript_name: &str) -> (r: Result<
        Handle,
        SelectionError,
    >)
        ensures
            match r {
                Ok(handle) => exists|families: Vec<String>, i: int|
                    {
                        &&& call_ensures(
                            Self::all_families,
                            (self,),
                            Ok::<Vec<String>, SelectionError>(families),
                        )
                        &&& 0 <= i < families@.len()
                        &&& #[trigger] found_in_family(
                            Self::select_family_by_name,
                            Self::select_postscript_names_for_family,
                            self,
                            families@[i]@,
                            postscript_name@,
                            handle,
                        )
                        &&& forall|j: int|
                            0 <= j < i ==> #[trigger] passed_over(
                                Self::select_family_by_name,
                                Self::select_postscript_names_for_family,
                                self,
                                families@[j]@,
                                postscript_name@,
                            )
                    },
                Err(e) => {
                    ||| call_ensures(
                        Self::all_families,
                        (self,),
                        Err::<Vec<String>, SelectionError>(e),
                    )
                    ||| e == SelectionError::NotFound && exists|families: Vec<String>|
                        {
                            &&& #[trigger] call_ensures(
                                Self::all_families,
                                (self,),
                                Ok::<Vec<String>, SelectionError>(families),
                            )
                            &&& forall|j: int|
                                0 <= j < families@.len() ==> #[trigger] passed_over(
                                    Self::select_family_by_name,
                                    Self::select_postscript_names_for_family,
                                    self,
                                    families@[j]@,
                                    postscript_name@,
                                )
                        }
                },
            },
    {
        let wanted: String = postscript_name.to_owned();
        let listed = self.all_families();
        let families: Vec<String> = match listed {
            Ok(families) => families,
            Err(e) => { return Err(e); },
        };
        let mut index: usize = 0;
        while index < families.len()
            invariant
                index <= families@.len(),
                wanted@ == postscript_name@,
                call_ensures(
                    Self::all_families,
                    (self,),
                    Ok::<Vec<String>, SelectionError>(families),
                ),
                forall|j: int|
                    0 <= j < index ==> #[trigger] passed_over(
                        Self::select_family_by_name,
                        Self::select_postscript_names_for_family,
                        self,
                        families@[j]@,
                        postscript_name@,
                    ),
            decreases families@.len() - index,
        {
            let name: &str = families[index].as_str();
            let had = self.select_family_by_name(name);
            match had {
                Ok(family) => {
                    let described = self.select_postscript_names_for_family(&family);
                    match described {
                        Ok(names) => {
                            let picked = select_in_family_by_postscript_name(
                                family,
                                names.as_slice(),
                                &wanted,
                            );
                            match picked {
                                Some(handle) => {
                                    assert(found_in_family(
                                        Self::select_family_by_name,
                                        Self::select_postscript_names_for_family,
                                        self,
                                        families@[index as int]@,
                                        postscript_name@,
                                        handle,
                                    )) by {
                                        assert(call_ensures(
                                            Self::select_family_by_name,
                                            (self, name),
                                            Ok::<FamilyHandle, SelectionError>(family),
                                        ));
                                        assert(call_ensures(
                                            Self::select_postscript_names_for_family,
                                            (self, &family),
                                            Ok::<Vec<String>, SelectionError>(names),
                                        ));
                                    }
                                    return Ok(handle);
                                },
                                None => {
                                    assert(names_pass_over(Self::select_postscript_names_for_family, self, family, postscript_name@)) by {
                                        assert(call_ensures(
                                            Self::select_postscript_names_for_family,
                                            (self, &family),
                                            described,
                                        ));
                                    }
                                },
                            }
                        },
                        Err(_) => {
                            assert(names_pass_over(Self::select_postscript_names_for_family, self, family, postscript_name@)) by {
                                assert(call_ensures(
                                    Self::select_postscript_names_for_family,
                                    (self, &family),
                                    described,
                                ));
                            }
                        },
                    }
                },
                Err(_) => {},
            }
            assert(passed_over(Self::select_family_by_name, Self::select_postscript_names_for_family, self, families@[index as int]@, postscript_name@)) by {
                assert(call_ensures(Self::select_family_by_name, (self, name), had));
            }
            index = index + 1;
        }
        Err(SelectionError::NotFound)
    }

    /// Selects the font that fits `spec` best. The families are tried in the
    /// order listed, each under the name that `defaults` resolves it to; one
    /// that the source does not have, or that has no face, is passed over for
    /// the next. From the first family with a face, the face that matches the
    /// properties best is taken. A failure to describe the faces of a family
    /// that the source has ends the match with that error. `NotFound` says
    /// that every family was passed over.
    fn select_best_match(&self, spec: &Spec, defaults: &DefaultFamilies) -> (r: Result<
        Handle,
        SelectionError,
    >)
        ensures
            spec.families@.len() == 0 ==> r == Err::<Handle, SelectionError>(
                SelectionError::NotFound,
            ),
            best_match_result(
                Self::select_family_by_name,
                Self::select_match_fields_for_family,
                self,
                spec.families@,
                *defaults,
                spec.properties,
                r,
            ),
    {
        let mut index: usize = 0;
        while index < spec.families.len()
            invariant
                index <= spec.families@.len(),
                forall|j: int|
                    0 <= j < index ==> #[trigger] match_passed_over(
                        Self::select_family_by_name,
                        Self::select_match_fields_for_family,
                        self,
                        resolved_name(spec.families@[j], *defaults),
                        spec.properties,
                    ),
            decreases spec.families@.len() - index,
        {
            let ghost family_name = resolved_name(spec.families@[index as int], *defaults);
            let had = self.select_family_by_spec(&spec.families[index], defaults);
            match had {
                Ok(family) => {
                    let described = self.select_match_fields_for_family(&family);
                    assert(call_ensures(
                        Self::select_match_fields_for_family,
                        (self, &family),
                        described,
                    ));
                    match decide_family(family, described, &spec.properties) {
                        FamilyOutcome::Selected(handle) => {
                            assert(selected(
                                family,
                                described->Ok_0@,
                                spec.properties,
                                handle,
                            ));
                            assert(matched_in_family(
                                Self::select_family_by_name,
                                Self::select_match_fields_for_family,
                                self,
                                family_name,
                                spec.properties,
                                handle,
                            ));
                            return Ok(handle);
                        },
                        FamilyOutcome::Failed(e) => {
                            assert(match_failed_in_family(
                                Self::select_family_by_name,
                                Self::select_match_fields_for_family,
                                self,
                                family_name,
                                e,
                            ));
                            return Err(e);
                        },
                        FamilyOutcome::Exhausted => {
                            assert(forall|best: int|
                                is_best_match(described->Ok_0@, spec.properties, best) ==> best
                                    >= family.fonts@.len());
                            assert(fields_pass_over(
                                Self::select_match_fields_for_family,
                                self,
                                family,
                                spec.properties,
                            ));
                        },
                    }
                },
                Err(_) => {},
            }
            assert(match_passed_over(
                Self::select_family_by_name,
                Self::select_match_fields_for_family,
                self,
                family_name,
                spec.properties,
            ));
            index = index + 1;
        }
        Err(SelectionError::NotFound)
    }
}

} // verus!
