//! What passes between the registry and its database: statements one way,
//! failures the other.
//!
//! A statement is a fixed text with its values bound beside it. No value is
//! ever pasted into the text.
use uuid::Uuid;
use vstd::prelude::*;

verus! {

/// A value bound to a statement.
#[derive(Debug)]
pub enum Param {
    Text(String),
    MaybeText(Option<String>),
    Texts(Vec<String>),
    MaybeTexts(Option<Vec<String>>),
    Int(i32),
    BigInt(i64),
    Bool(bool),
    MaybeBool(Option<bool>),
    Id(Uuid),
}

/// A bound value, with strings as the characters they hold.
pub enum ParamView {
    Text(Seq<char>),
    MaybeText(Option<Seq<char>>),
    Texts(Seq<Seq<char>>),
    MaybeTexts(Option<Seq<Seq<char>>>),
    Int(i32),
    BigInt(i64),
    Bool(bool),
    MaybeBool(Option<bool>),
    Id(Uuid),
}

impl View for Param {
    type V = ParamView;

    open spec fn view(&self) -> ParamView {
        match self {
            Param::Text(s) => ParamView::Text(s@),
            Param::MaybeText(s) => ParamView::MaybeText(s.deep_view()),
            Param::Texts(s) => ParamView::Texts(s.deep_view()),
            Param::MaybeTexts(s) => ParamView::MaybeTexts(s.deep_view()),
            Param::Int(n) => ParamView::Int(*n),
            Param::BigInt(n) => ParamView::BigInt(*n),
            Param::Bool(b) => ParamView::Bool(*b),
            Param::MaybeBool(b) => ParamView::MaybeBool(*b),
            Param::Id(id) => ParamView::Id(*id),
        }
    }
}

/// A statement to run: its text, and the values bound to `$1`, `$2` and so on.
#[derive(Debug)]
pub struct Statement {
    pub sql: String,
    pub params: Vec<Param>,
}

/// A statement, with strings as the characters they hold.
#[verifier::ext_equal]
pub struct StatementView {
    pub sql: Seq<char>,
    pub params: Seq<ParamView>,
}

impl View for Statement {
    type V = StatementView;

    open spec fn view(&self) -> StatementView {
        StatementView { sql: self.sql@, params: self.params@.map_values(|p: Param| p@) }
    }
}

/// A statement with its values.
pub open spec fn bound(sql: Seq<char>, params: Seq<ParamView>) -> StatementView {
    StatementView { sql, params }
}

impl Statement {
    /// A statement without values yet.
    pub fn new(sql: &str) -> (res: Self)
        ensures
            res@ == bound(sql@, seq![]),
    {
        let res = Statement { sql: sql.to_owned(), params: Vec::new() };
        assert(res@.params =~= seq![]);
        res
    }

    /// The statement with one more value, bound behind those it has.
    pub fn bind(self, param: Param) -> (res: Self)
        ensures
            res@ == bound(self@.sql, self@.params.push(param@)),
    {
        let mut params = self.params;
        params.push(param);
        let res = Statement { sql: self.sql, params };
        assert(res@.params =~= self@.params.push(param@));
        res
    }
}

/// A failure the database reported: the code it gave, if it gave one, and its
/// own words for it.
#[derive(Debug)]
pub struct DbError {
    pub code: Option<String>,
    pub message: String,
}

/// A failure, with strings as the characters they hold.
pub struct DbErrorView {
    pub code: Option<Seq<char>>,
    pub message: Seq<char>,
}

impl View for DbError {
    type V = DbErrorView;

    open spec fn view(&self) -> DbErrorView {
        DbErrorView { code: self.code.deep_view(), message: self.message@ }
    }
}

/// A copy of an optional string.
pub fn copy_text(text: &Option<String>) -> (res: Option<String>)
    ensures
        res == *text,
{
    match text {
        Some(t) => Some(t.clone()),
        None => None,
    }
}

/// A copy of a list of strings.
pub fn copy_texts(texts: &Vec<String>) -> (res: Vec<String>)
    ensures
        res@ == texts@,
{
    let mut res: Vec<String> = Vec::new();
    let mut i: usize = 0;
    while i < texts.len()
        invariant
            i <= texts@.len(),
            res@ == texts@.take(i as int),
        decreases texts@.len() - i,
    {
        res.push(texts[i].clone());
        i = i + 1;
        assert(res@ =~= texts@.take(i as int));
    }
    assert(texts@.take(i as int) =~= texts@);
    res
}

} // verus!
