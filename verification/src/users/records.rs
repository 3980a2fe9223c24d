//! The CSV uploads with which admins seed users: one record per row, its
//! fields found by the header row.
use vstd::prelude::*;

use crate::ids::{parse_uuid, uuid_parse};
use crate::users::{role_named, Role};

verus! {

/// Which upload is being read.
#[derive(Clone, Copy, Debug, PartialEq, Eq, Structural)]
pub enum SeedKind {
    /// `name, mail, linkedin, study, degree, institution, graduation_year, badge, token`
    Attendees,
    /// `name, mail, company, badge, token`
    Exhibitors,
    /// `role, name, mail, linkedin, study, degree, institution, graduation_year, company, badge, token`
    Population,
}

/// One user to create, as read from a row of an upload.
#[derive(Clone, Debug)]
pub struct SeedRecord {
    pub role: Role,
    pub name: Option<String>,
    pub mail: Option<String>,
    pub linkedin: Option<String>,
    pub study: Option<String>,
    pub degree: Option<String>,
    pub institution: Option<String>,
    pub graduation_year: Option<String>,
    pub company: Option<String>,
    pub badge: u128,
    pub token: String,
}

/// A record as plain values.
pub struct RecordView {
    pub role: Role,
    pub name: Option<Seq<char>>,
    pub mail: Option<Seq<char>>,
    pub linkedin: Option<Seq<char>>,
    pub study: Option<Seq<char>>,
    pub degree: Option<Seq<char>>,
    pub institution: Option<Seq<char>>,
    pub graduation_year: Option<Seq<char>>,
    pub company: Option<Seq<char>>,
    pub badge: u128,
    pub token: Seq<char>,
}

impl View for SeedRecord {
    type V = RecordView;

    open spec fn view(&self) -> RecordView {
        RecordView {
            role: self.role,
            name: self.name.deep_view(),
            mail: self.mail.deep_view(),
            linkedin: self.linkedin.deep_view(),
            study: self.study.deep_view(),
            degree: self.degree.deep_view(),
            institution: self.institution.deep_view(),
            graduation_year: self.graduation_year.deep_view(),
            company: self.company.deep_view(),
            badge: self.badge,
            token: self.token@,
        }
    }
}

/// The column names an upload of this kind is read by, in the order of the
/// record's fields (the order in which a row is read when the header row
/// cannot be).
pub open spec fn field_names(kind: SeedKind) -> Seq<Seq<char>> {
    match kind {
        SeedKind::Attendees => seq![
            "name"@, "mail"@, "linkedin"@, "study"@, "degree"@, "institution"@,
            "graduation_year"@, "badge"@, "token"@,
        ],
        SeedKind::Exhibitors => seq!["name"@, "mail"@, "company"@, "badge"@, "token"@],
        SeedKind::Population => seq![
            "role"@, "name"@, "mail"@, "linkedin"@, "study"@, "degree"@, "institution"@,
            "graduation_year"@, "company"@, "badge"@, "token"@,
        ],
    }
}

/// How many columns carry the name `f`.
pub open spec fn occurrences(headers: Seq<Seq<char>>, f: Seq<char>) -> nat
    decreases headers.len(),
{
    if headers.len() == 0 {
        0
    } else {
        occurrences(headers.drop_last(), f) + if headers.last() == f {
            1nat
        } else {
            0nat
        }
    }
}

/// The last column that carries the name `f`, or -1.
pub open spec fn last_column(headers: Seq<Seq<char>>, f: Seq<char>) -> int
    decreases headers.len(),
{
    if headers.len() == 0 {
        -1
    } else if headers.last() == f {
        headers.len() - 1
    } else {
        last_column(headers.drop_last(), f)
    }
}

/// The cell of a row under the column named `f`: `Ok(None)` when no column
/// has that name, `Err(())` when several do or the row is too short to hold
/// it, else `Ok(Some(text))`.
pub open spec fn cell(headers: Seq<Seq<char>>, row: Seq<Seq<char>>, f: Seq<char>) -> Result<
    Option<Seq<char>>,
    (),
> {
    if occurrences(headers, f) == 0 {
        Ok(None)
    } else if occurrences(headers, f) > 1 {
        Err(())
    } else if last_column(headers, f) < row.len() {
        Ok(Some(row[last_column(headers, f)]))
    } else {
        Err(())
    }
}

/// A field that must be present: its text.
pub open spec fn required_text(c: Result<Option<Seq<char>>, ()>) -> Option<Seq<char>> {
    match c {
        Ok(Some(v)) => Some(v),
        _ => None,
    }
}

/// A field that may be absent: `Some(None)` when absent or empty, `Some(Some(text))`
/// otherwise, `None` when it cannot be read.
pub open spec fn optional_text(c: Result<Option<Seq<char>>, ()>) -> Option<Option<Seq<char>>> {
    match c {
        Ok(None) => Some(None),
        Ok(Some(v)) => if v.len() == 0 {
            Some(None)
        } else {
            Some(Some(v))
        },
        Err(()) => None,
    }
}

/// A required role field.
pub open spec fn role_field(c: Result<Option<Seq<char>>, ()>) -> Option<Role> {
    match c {
        Ok(Some(v)) => role_named(v),
        _ => None,
    }
}

/// A required badge field: a UUID.
pub open spec fn badge_field(c: Result<Option<Seq<char>>, ()>) -> Option<u128> {
    match c {
        Ok(Some(v)) => uuid_parse(v),
        _ => None,
    }
}

/// The record a row holds, or `None` when the row does not make one.
/// `headers` is `None` when the header row could not be read; the row is then
/// read by position, in the order of the record's fields.
pub open spec fn row_record(kind: SeedKind, headers: Option<Seq<Seq<char>>>, row: Seq<Seq<char>>) -> Option<RecordView> {
    let h = match headers {
        Some(h) => h,
        None => field_names(kind),
    };
    let c = |f: Seq<char>| cell(h, row, f);
    if headers is None && row.len() < field_names(kind).len() {
        None
    } else {
        match kind {
            SeedKind::Attendees => {
                if required_text(c("name"@)) is Some && required_text(c("mail"@)) is Some
                    && optional_text(c("linkedin"@)) is Some && optional_text(c("study"@)) is Some
                    && optional_text(c("degree"@)) is Some && optional_text(c("institution"@)) is Some
                    && optional_text(c("graduation_year"@)) is Some && badge_field(c("badge"@)) is Some
                    && required_text(c("token"@)) is Some {
                    Some(RecordView {
                        role: Role::Attendee,
                        name: Some(required_text(c("name"@)).unwrap()),
                        mail: Some(required_text(c("mail"@)).unwrap()),
                        linkedin: optional_text(c("linkedin"@)).unwrap(),
                        study: optional_text(c("study"@)).unwrap(),
                        degree: optional_text(c("degree"@)).unwrap(),
                        institution: optional_text(c("institution"@)).unwrap(),
                        graduation_year: optional_text(c("graduation_year"@)).unwrap(),
                        company: None,
                        badge: badge_field(c("badge"@)).unwrap(),
                        token: required_text(c("token"@)).unwrap(),
                    })
                } else {
                    None
                }
            },
            SeedKind::Exhibitors => {
                if required_text(c("name"@)) is Some && required_text(c("mail"@)) is Some
                    && required_text(c("company"@)) is Some && badge_field(c("badge"@)) is Some
                    && required_text(c("token"@)) is Some {
                    Some(RecordView {
                        role: Role::Exhibitor,
                        name: Some(required_text(c("name"@)).unwrap()),
                        mail: Some(required_text(c("mail"@)).unwrap()),
                        linkedin: None,
                        study: None,
                        degree: None,
                        institution: None,
                        graduation_year: None,
                        company: Some(required_text(c("company"@)).unwrap()),
                        badge: badge_field(c("badge"@)).unwrap(),
                        token: required_text(c("token"@)).unwrap(),
                    })
                } else {
                    None
                }
            },
            SeedKind::Population => {
                if role_field(c("role"@)) is Some && optional_text(c("name"@)) is Some
                    && optional_text(c("mail"@)) is Some && optional_text(c("linkedin"@)) is Some
                    && optional_text(c("study"@)) is Some && optional_text(c("degree"@)) is Some
                    && optional_text(c("institution"@)) is Some
                    && optional_text(c("graduation_year"@)) is Some
                    && optional_text(c("company"@)) is Some && badge_field(c("badge"@)) is Some
                    && required_text(c("token"@)) is Some {
                    Some(RecordView {
                        role: role_field(c("role"@)).unwrap(),
                        name: optional_text(c("name"@)).unwrap(),
                        mail: optional_text(c("mail"@)).unwrap(),
                        linkedin: optional_text(c("linkedin"@)).unwrap(),
                        study: optional_text(c("study"@)).unwrap(),
                        degree: optional_text(c("degree"@)).unwrap(),
                        institution: optional_text(c("institution"@)).unwrap(),
                        graduation_year: optional_text(c("graduation_year"@)).unwrap(),
                        company: optional_text(c("company"@)).unwrap(),
                        badge: badge_field(c("badge"@)).unwrap(),
                        token: required_text(c("token"@)).unwrap(),
                    })
                } else {
                    None
                }
            },
        }
    }
}

proof fn lemma_occurs(h: Seq<Seq<char>>, f: Seq<char>, i: int)
    requires
        0 <= i < h.len(),
        h[i] == f,
    ensures
        occurrences(h, f) >= 1,
    decreases h.len(),
{
    if i < h.len() - 1 {
        lemma_occurs(h.drop_last(), f, i);
    }
}

/// A column whose name no other column carries is the one found by that name.
proof fn lemma_unique_column(h: Seq<Seq<char>>, f: Seq<char>, i: int)
    requires
        0 <= i < h.len(),
        h[i] == f,
        occurrences(h, f) == 1,
    ensures
        last_column(h, f) == i,
    decreases h.len(),
{
    if i < h.len() - 1 {
        lemma_occurs(h.drop_last(), f, i);
        lemma_unique_column(h.drop_last(), f, i);
    }
}

/// The text of an optional field: nothing when the cell is empty.
pub open spec fn nonempty(v: Seq<char>) -> Option<Seq<char>> {
    if v.len() == 0 {
        None
    } else {
        Some(v)
    }
}

/// An attendee record takes each field from the column of its own name:
/// when column `i` is the only one named `f`, the field `f` of the record is
/// the row's cell `i` (an empty cell leaving an optional field out), and an
/// optional field whose name no column carries is left out.
pub proof fn law_attendee_fields_by_name(h: Seq<Seq<char>>, row: Seq<Seq<char>>, r: RecordView, f: Seq<char>, i: int)
    requires
        row_record(SeedKind::Attendees, Some(h), row) == Some(r),
        0 <= i < h.len(),
        i < row.len(),
        h[i] == f,
        occurrences(h, f) == 1,
    ensures
        r.role == Role::Attendee,
        r.company is None,
        f == "name"@ ==> r.name == Some(row[i]),
        f == "mail"@ ==> r.mail == Some(row[i]),
        f == "linkedin"@ ==> r.linkedin == nonempty(row[i]),
        f == "study"@ ==> r.study == nonempty(row[i]),
        f == "degree"@ ==> r.degree == nonempty(row[i]),
        f == "institution"@ ==> r.institution == nonempty(row[i]),
        f == "graduation_year"@ ==> r.graduation_year == nonempty(row[i]),
        f == "badge"@ ==> uuid_parse(row[i]) == Some(r.badge),
        f == "token"@ ==> r.token == row[i],
        occurrences(h, "linkedin"@) == 0 ==> r.linkedin is None,
        occurrences(h, "study"@) == 0 ==> r.study is None,
        occurrences(h, "degree"@) == 0 ==> r.degree is None,
        occurrences(h, "institution"@) == 0 ==> r.institution is None,
        occurrences(h, "graduation_year"@) == 0 ==> r.graduation_year is None,
{
    lemma_unique_column(h, f, i);
    assert(cell(h, row, f) == Ok::<Option<Seq<char>>, ()>(Some(row[i])));
}

/// An exhibitor record takes each field from the column of its own name:
/// when column `i` is the only one named `f`, the field `f` of the record is
/// the row's cell `i`.
pub proof fn law_exhibitor_fields_by_name(h: Seq<Seq<char>>, row: Seq<Seq<char>>, r: RecordView, f: Seq<char>, i: int)
    requires
        row_record(SeedKind::Exhibitors, Some(h), row) == Some(r),
        0 <= i < h.len(),
        i < row.len(),
        h[i] == f,
        occurrences(h, f) == 1,
    ensures
        r.role == Role::Exhibitor,
        r.linkedin is None && r.study is None && r.degree is None && r.institution is None
            && r.graduation_year is None,
        f == "name"@ ==> r.name == Some(row[i]),
        f == "mail"@ ==> r.mail == Some(row[i]),
        f == "company"@ ==> r.company == Some(row[i]),
        f == "badge"@ ==> uuid_parse(row[i]) == Some(r.badge),
        f == "token"@ ==> r.token == row[i],
{
    lemma_unique_column(h, f, i);
    assert(cell(h, row, f) == Ok::<Option<Seq<char>>, ()>(Some(row[i])));
}

/// A population record takes each field from the column of its own name:
/// when column `i` is the only one named `f`, the field `f` of the record is
/// the row's cell `i` (the role read by its lowercase name, an empty cell
/// leaving an optional field out), and an optional field whose name no
/// column carries is left out.
pub proof fn law_population_fields_by_name(h: Seq<Seq<char>>, row: Seq<Seq<char>>, r: RecordView, f: Seq<char>, i: int)
    requires
        row_record(SeedKind::Population, Some(h), row) == Some(r),
        0 <= i < h.len(),
        i < row.len(),
        h[i] == f,
        occurrences(h, f) == 1,
    ensures
        f == "role"@ ==> role_named(row[i]) == Some(r.role),
        f == "name"@ ==> r.name == nonempty(row[i]),
        f == "mail"@ ==> r.mail == nonempty(row[i]),
        f == "linkedin"@ ==> r.linkedin == nonempty(row[i]),
        f == "study"@ ==> r.study == nonempty(row[i]),
        f == "degree"@ ==> r.degree == nonempty(row[i]),
        f == "institution"@ ==> r.institution == nonempty(row[i]),
        f == "graduation_year"@ ==> r.graduation_year == nonempty(row[i]),
        f == "company"@ ==> r.company == nonempty(row[i]),
        f == "badge"@ ==> uuid_parse(row[i]) == Some(r.badge),
        f == "token"@ ==> r.token == row[i],
        occurrences(h, "name"@) == 0 ==> r.name is None,
        occurrences(h, "mail"@) == 0 ==> r.mail is None,
        occurrences(h, "linkedin"@) == 0 ==> r.linkedin is None,
        occurrences(h, "study"@) == 0 ==> r.study is None,
        occurrences(h, "degree"@) == 0 ==> r.degree is None,
        occurrences(h, "institution"@) == 0 ==> r.institution is None,
        occurrences(h, "graduation_year"@) == 0 ==> r.graduation_year is None,
        occurrences(h, "company"@) == 0 ==> r.company is None,
{
    lemma_unique_column(h, f, i);
    assert(cell(h, row, f) == Ok::<Option<Seq<char>>, ()>(Some(row[i])));
}

/// What the `csv` crate reads from an upload with its default settings (a
/// header row, comma separated, no trimming, rows as long as the header row):
/// the header row, `None` when it could not be read as text, and each
/// following row, `None` for a row it could not read.
pub uninterp spec fn csv_table(data: Seq<u8>) -> (Option<Seq<Seq<char>>>, Seq<Option<Seq<Seq<char>>>>);

/// Reads an upload with `csv::Reader::from_reader`, taking its header row
/// (`headers`) and then every row (`records`) as text. The result is named by
/// `csv_table`.
#[verifier::external_body]
fn read_csv(data: &[u8]) -> (table: (Option<Vec<String>>, Vec<Option<Vec<String>>>))
    ensures
        (table.0.deep_view(), table.1.deep_view()) == csv_table(data@),
{
    let mut reader = csv::Reader::from_reader(data);
    let headers = reader.headers().ok().map(|h| h.iter().map(|f| f.to_string()).collect());
    let rows = reader.records().map(
        |r| r.ok().map(|rec| rec.iter().map(|f| f.to_string()).collect()),
    ).collect();
    (headers, rows)
}

proof fn lemma_take_step(h: Seq<Seq<char>>, i: int)
    requires
        0 <= i < h.len(),
    ensures
        h.take(i + 1).drop_last() == h.take(i),
        h.take(i + 1).last() == h[i],
{
    assert(h.take(i + 1).drop_last() =~= h.take(i));
}

/// Finds the cell of a row under the column named `name`.
fn find_cell(headers: &Vec<String>, row: &Vec<String>, name: &str) -> (c: Result<Option<String>, ()>)
    ensures
        match cell(headers.deep_view(), row.deep_view(), name@) {
            Err(()) => c is Err,
            Ok(None) => c matches Ok(None),
            Ok(Some(v)) => c matches Ok(Some(s)) && s@ == v,
        },
{
    let key = name.to_owned();
    let ghost h = headers.deep_view();
    let mut count: usize = 0;
    let mut column: usize = 0;
    let mut i: usize = 0;
    while i < headers.len()
        invariant
            i <= headers.len(),
            h == headers.deep_view(),
            key@ == name@,
            count <= i,
            count == occurrences(h.take(i as int), name@),
            count > 0 ==> column == last_column(h.take(i as int), name@),
            count > 0 ==> column < i,
        decreases headers.len() - i,
    {
        proof {
            lemma_take_step(h, i as int);
        }
        if headers[i] == key {
            count = count + 1;
            column = i;
        }
        i = i + 1;
    }
    assert(h.take(headers.len() as int) =~= h);
    if count == 0 {
        Ok(None)
    } else if count > 1 {
        Err(())
    } else if column < row.len() {
        Ok(Some(row[column].clone()))
    } else {
        Err(())
    }
}

/// A field that must be present.
fn take_required(c: Result<Option<String>, ()>) -> (v: Option<String>)
    ensures
        v.deep_view() == required_text(cell_view(c)),
{
    match c {
        Ok(Some(s)) => Some(s),
        _ => None,
    }
}

/// The view of an exec cell.
pub open spec fn cell_view(c: Result<Option<String>, ()>) -> Result<Option<Seq<char>>, ()> {
    match c {
        Ok(Some(s)) => Ok(Some(s@)),
        Ok(None) => Ok(None),
        Err(()) => Err(()),
    }
}

/// A field that may be absent or empty.
fn take_optional(c: Result<Option<String>, ()>) -> (v: Option<Option<String>>)
    ensures
        v.deep_view() == optional_text(cell_view(c)),
{
    match c {
        Ok(None) => Some(None),
        Ok(Some(s)) => {
            if s.as_str().is_empty() {
                Some(None)
            } else {
                Some(Some(s))
            }
        },
        Err(()) => None,
    }
}


/// A required role field.
fn take_role(c: Result<Option<String>, ()>) -> (r: Option<Role>)
    ensures
        r == role_field(cell_view(c)),
{
    match c {
        Ok(Some(s)) => Role::parse(s.as_str()),
        _ => None,
    }
}

/// A required badge field.
fn take_badge(c: Result<Option<String>, ()>) -> (r: Option<u128>)
    ensures
        r == badge_field(cell_view(c)),
{
    match c {
        Ok(Some(s)) => parse_uuid(s.as_str()),
        _ => None,
    }
}

/// The column names of a kind, as strings.
fn names_of(kind: SeedKind) -> (names: Vec<String>)
    ensures
        names.deep_view() == field_names(kind),
{
    let mut names: Vec<String> = Vec::new();
    match kind {
        SeedKind::Attendees => {
            names.push("name".to_owned());
            names.push("mail".to_owned());
            names.push("linkedin".to_owned());
            names.push("study".to_owned());
            names.push("degree".to_owned());
            names.push("institution".to_owned());
            names.push("graduation_year".to_owned());
            names.push("badge".to_owned());
            names.push("token".to_owned());
        },
        SeedKind::Exhibitors => {
            names.push("name".to_owned());
            names.push("mail".to_owned());
            names.push("company".to_owned());
            names.push("badge".to_owned());
            names.push("token".to_owned());
        },
        SeedKind::Population => {
            names.push("role".to_owned());
            names.push("name".to_owned());
            names.push("mail".to_owned());
            names.push("linkedin".to_owned());
            names.push("study".to_owned());
            names.push("degree".to_owned());
            names.push("institution".to_owned());
            names.push("graduation_year".to_owned());
            names.push("company".to_owned());
            names.push("badge".to_owned());
            names.push("token".to_owned());
        },
    }
    assert(names.deep_view() =~= field_names(kind));
    names
}

/// The number of fields of a record of this kind.
fn field_count(kind: SeedKind) -> (n: usize)
    ensures
        n == field_names(kind).len(),
{
    match kind {
        SeedKind::Attendees => 9,
        SeedKind::Exhibitors => 5,
        SeedKind::Population => 11,
    }
}

/// Reads the record a row holds.
pub fn row_to_record(kind: SeedKind, headers: &Option<Vec<String>>, row: &Vec<String>) -> (r: Option<SeedRecord>)
    ensures
        match r {
            Some(rec) => row_record(kind, headers.deep_view(), row.deep_view()) == Some(rec@),
            None => row_record(kind, headers.deep_view(), row.deep_view()) is None,
        },
{
    let h: Vec<String> = match headers {
        Some(h) => h.clone(),
        None => {
            if row.len() < field_count(kind) {
                return None;
            }
            names_of(kind)
        },
    };
    assert(h.deep_view() == match headers.deep_view() {
        Some(hv) => hv,
        None => field_names(kind),
    }) by {
        if headers is Some {
            assert(h.deep_view() =~= headers.unwrap().deep_view());
        }
    }
    match kind {
        SeedKind::Attendees => {
            let name = take_required(find_cell(&h, row, "name"));
            let mail = take_required(find_cell(&h, row, "mail"));
            let linkedin = take_optional(find_cell(&h, row, "linkedin"));
            let study = take_optional(find_cell(&h, row, "study"));
            let degree = take_optional(find_cell(&h, row, "degree"));
            let institution = take_optional(find_cell(&h, row, "institution"));
            let graduation_year = take_optional(find_cell(&h, row, "graduation_year"));
            let badge = take_badge(find_cell(&h, row, "badge"));
            let token = take_required(find_cell(&h, row, "token"));
            match (name, mail, linkedin, study, degree, institution, graduation_year, badge, token) {
                (
                    Some(name),
                    Some(mail),
                    Some(linkedin),
                    Some(study),
                    Some(degree),
                    Some(institution),
                    Some(graduation_year),
                    Some(badge),
                    Some(token),
                ) => Some(
                    SeedRecord {
                        role: Role::Attendee,
                        name: Some(name),
                        mail: Some(mail),
                        linkedin,
                        study,
                        degree,
                        institution,
                        graduation_year,
                        company: None,
                        badge,
                        token,
                    },
                ),
                _ => None,
            }
        },
        SeedKind::Exhibitors => {
            let name = take_required(find_cell(&h, row, "name"));
            let mail = take_required(find_cell(&h, row, "mail"));
            let company = take_required(find_cell(&h, row, "company"));
            let badge = take_badge(find_cell(&h, row, "badge"));
            let token = take_required(find_cell(&h, row, "token"));
            match (name, mail, company, badge, token) {
                (Some(name), Some(mail), Some(company), Some(badge), Some(token)) => Some(
                    SeedRecord {
                        role: Role::Exhibitor,
                        name: Some(name),
                        mail: Some(mail),
                        linkedin: None,
                        study: None,
                        degree: None,
                        institution: None,
                        graduation_year: None,
                        company: Some(company),
                        badge,
                        token,
                    },
                ),
                _ => None,
            }
        },
        SeedKind::Population => {
            let role = take_role(find_cell(&h, row, "role"));
            let name = take_optional(find_cell(&h, row, "name"));
            let mail = take_optional(find_cell(&h, row, "mail"));
            let linkedin = take_optional(find_cell(&h, row, "linkedin"));
            let study = take_optional(find_cell(&h, row, "study"));
            let degree = take_optional(find_cell(&h, row, "degree"));
            let institution = take_optional(find_cell(&h, row, "institution"));
            let graduation_year = take_optional(find_cell(&h, row, "graduation_year"));
            let company = take_optional(find_cell(&h, row, "company"));
            let badge = take_badge(find_cell(&h, row, "badge"));
            let token = take_required(find_cell(&h, row, "token"));
            match (role, name, mail, linkedin, study, degree, institution, graduation_year, company, badge, token) {
                (
                    Some(role),
                    Some(name),
                    Some(mail),
                    Some(linkedin),
                    Some(study),
                    Some(degree),
                    Some(institution),
                    Some(graduation_year),
                    Some(company),
                    Some(badge),
                    Some(token),
                ) => Some(
                    SeedRecord {
                        role,
                        name,
                        mail,
                        linkedin,
                        study,
                        degree,
                        institution,
                        graduation_year,
                        company,
                        badge,
                        token,
                    },
                ),
                _ => None,
            }
        },
    }
}

/// Whether a row read by the `csv` crate makes a record.
pub open spec fn row_makes_record(kind: SeedKind, headers: Option<Seq<Seq<char>>>, row: Option<Seq<Seq<char>>>) -> bool {
    row is Some && row_record(kind, headers, row.unwrap()) is Some
}

/// The plain values of a list of records.
pub open spec fn record_views(records: Seq<SeedRecord>) -> Seq<RecordView> {
    records.map_values(|rec: SeedRecord| rec@)
}

/// `records` are the records made by the first rows of `table`, up to the
/// first row that makes none; `complete` tells whether every row made one.
pub open spec fn upload_prefix(
    kind: SeedKind,
    table: (Option<Seq<Seq<char>>>, Seq<Option<Seq<Seq<char>>>>),
    records: Seq<RecordView>,
    complete: bool,
) -> bool {
    &&& records.len() <= table.1.len()
    &&& forall|i: int|
        0 <= i < records.len() ==> row_makes_record(kind, table.0, #[trigger] table.1[i])
            && row_record(kind, table.0, table.1[i].unwrap()) == Some(records[i])
    &&& complete <==> records.len() == table.1.len()
    &&& !complete ==> !row_makes_record(kind, table.0, table.1[records.len() as int])
}

proof fn lemma_prefix_stops(
    kind: SeedKind,
    table: (Option<Seq<Seq<char>>>, Seq<Option<Seq<Seq<char>>>>),
    records: Seq<RecordView>,
    i: int,
)
    requires
        0 <= i < table.1.len(),
        upload_prefix(kind, (table.0, table.1.take(i)), records, true),
        !row_makes_record(kind, table.0, table.1[i]),
    ensures
        upload_prefix(kind, table, records, false),
{
    assert forall|j: int| 0 <= j < records.len() implies row_makes_record(kind, table.0, #[trigger] table.1[j])
        && row_record(kind, table.0, table.1[j].unwrap()) == Some(records[j]) by {
        assert(table.1.take(i)[j] == table.1[j]);
    }
}

/// Reads the records of an upload, in order, up to the first row that does
/// not make one; `complete` tells whether every row made one.
pub fn read_records(kind: SeedKind, data: &[u8]) -> (r: (Vec<SeedRecord>, bool))
    ensures
        upload_prefix(kind, csv_table(data@), record_views(r.0@), r.1),
{
    let (headers, rows) = read_csv(data);
    let ghost table = csv_table(data@);
    let mut records: Vec<SeedRecord> = Vec::new();
    let mut i: usize = 0;
    while i < rows.len()
        invariant
            i <= rows.len(),
            records.len() == i,
            (headers.deep_view(), rows.deep_view()) == table,
            upload_prefix(kind, (table.0, table.1.take(i as int)), record_views(records@), true),
            table.1.len() == rows.len(),
            table == csv_table(data@),
        decreases rows.len() - i,
    {
        assert(table.1[i as int] == rows@[i as int].deep_view());
        let ghost old_views = record_views(records@);
        match &rows[i] {
            None => {
                assert(!row_makes_record(kind, table.0, table.1[i as int]));
                proof {
                    lemma_prefix_stops(kind, table, record_views(records@), i as int);
                }
                return (records, false);
            },
            Some(row) => {
                match row_to_record(kind, &headers, row) {
                    None => {
                        assert(table.1[i as int] == Some(row.deep_view()));
                        assert(!row_makes_record(kind, table.0, table.1[i as int]));
                        proof {
                            lemma_prefix_stops(kind, table, record_views(records@), i as int);
                        }
                        return (records, false);
                    },
                    Some(rec) => {
                        let ghost rec_view = rec@;
                        records.push(rec);
                        assert(record_views(records@) =~= old_views.push(rec_view));
                    },
                }
            },
        }
        i = i + 1;
    }
    assert(table.1.take(i as int) =~= table.1);
    (records, true)
}

} // verus!
