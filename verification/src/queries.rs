//! The query builder: which table a model lives in, the SQL statement and
//! parameter types for each method, the values bound to the parameters,
//! and the reading of statement results.

use vstd::prelude::*;

use crate::city::{spec_all_fields, City, CityView, GetAllFields};
use crate::text::utf8_bytes;
use vstd::utf8::{decode_utf8, encode_utf8, valid_utf8};
use crate::numeric::{lemma_decimal_roundtrip, parse_i32_radix, spec_parse_i32};

verus! {

/// Why a query could not be built or run.
#[derive(Debug, Clone, PartialEq, Eq)]
pub enum QueryBuilderError {
    /// The model's fields could not be bound to the statement.
    BadArgs(&'static str),
    /// The statement returned no row.
    NoResults,
    /// The request method has no statement.
    MethodUnsupported,
    /// The database reported an error, with its message.
    Postgres(String),
    /// The model has no table.
    TableNotFound,
}

/// The message a [`QueryBuilderError`] is shown with.
pub open spec fn spec_error_message(e: QueryBuilderError) -> Seq<char> {
    match e {
        QueryBuilderError::BadArgs(state) => "("@ + state@ + ")"@,
        QueryBuilderError::NoResults => "No results"@,
        QueryBuilderError::MethodUnsupported => "Method Not Supported"@,
        QueryBuilderError::Postgres(details) => details@,
        QueryBuilderError::TableNotFound => "table not found"@,
    }
}

impl QueryBuilderError {
    /// The message the error is shown with.
    pub fn message(&self) -> (r: String)
        ensures
            r@ == spec_error_message(*self),
    {
        match self {
            QueryBuilderError::BadArgs(state) => {
                let mut m = String::from_str("(");
                m.append(state);
                m.append(")");
                m
            },
            QueryBuilderError::NoResults => String::from_str("No results"),
            QueryBuilderError::MethodUnsupported => String::from_str("Method Not Supported"),
            QueryBuilderError::Postgres(details) => details.clone(),
            QueryBuilderError::TableNotFound => String::from_str("table not found"),
        }
    }
}

/// An HTTP request method.
#[derive(Debug, Clone)]
pub enum HttpMethod {
    Get,
    Post,
    Put,
    Delete,
    Head,
    Options,
    Connect,
    Patch,
    Trace,
    /// A method outside the standard ones, by its name.
    Extension(String),
}

/// The type of a statement parameter.
#[derive(Debug, Clone, Copy, PartialEq, Eq, Structural)]
pub enum ParamType {
    /// A 32-bit integer.
    Int4,
    /// A text of variable length.
    Varchar,
}

/// How many rows a statement is read for.
#[derive(Debug, Clone, Copy, PartialEq, Eq, Structural)]
pub enum Fetch {
    /// Exactly one row; none is an error of the database.
    One,
    /// All the rows it returns.
    All,
}

/// A value bound to a statement parameter.
#[derive(Debug)]
pub enum SqlParam<I> {
    Text(String),
    Int4(i32),
    /// The primary key given to the builder, if any.
    Key(Option<I>),
}

/// The mathematical value of a [`SqlParam`].
pub enum SqlParamView<I> {
    Text(Seq<char>),
    Int4(i32),
    Key(Option<I>),
}

impl<I> View for SqlParam<I> {
    type V = SqlParamView<I>;

    open spec fn view(&self) -> SqlParamView<I> {
        match self {
            SqlParam::Text(s) => SqlParamView::Text(s@),
            SqlParam::Int4(v) => SqlParamView::Int4(*v),
            SqlParam::Key(k) => SqlParamView::Key(*k),
        }
    }
}

/// The values of a list of parameters.
pub open spec fn params_view<I>(ps: Seq<SqlParam<I>>) -> Seq<SqlParamView<I>> {
    ps.map_values(|p: SqlParam<I>| p@)
}

/// A statement ready to be prepared and run.
#[derive(Debug)]
pub struct QueryPlan<I> {
    /// The SQL text.
    pub query: String,
    /// The types the statement is prepared with, one per parameter.
    pub param_types: Vec<ParamType>,
    /// The values bound to the parameters, in order.
    pub params: Vec<SqlParam<I>>,
    /// Whether exactly one row is read, or all of them.
    pub fetch: Fetch,
}

/// The table that holds the model named `name`.
pub open spec fn spec_table_for(name: Seq<char>) -> Option<Seq<char>> {
    if name == seq!['C', 'i', 't', 'y'] {
        Some(seq!['c', 'i', 't', 'i', 'e', 's'])
    } else {
        None
    }
}

/// The table that holds the model named `name`: `cities` for `City`.
pub fn table_for(name: &str) -> (r: Option<&'static str>)
    ensures
        match spec_table_for(name@) {
            Some(t) => r matches Some(s) && s@ == t,
            None => r is None,
        },
{
    proof {
        reveal_strlit("City");
        reveal_strlit("cities");
    }
    assert("City"@ =~= seq!['C', 'i', 't', 'y']);
    assert("cities"@ =~= seq!['c', 'i', 't', 'i', 'e', 's']);
    if crate::text::str_eq(name, "City") {
        Some("cities")
    } else {
        None
    }
}

/// The SQL text for `method` on table `table`.
pub open spec fn spec_query_string(table: Seq<char>, method: HttpMethod) -> Result<
    Seq<char>,
    QueryBuilderError,
> {
    match method {
        HttpMethod::Get => Ok("SELECT * FROM "@ + table + " WHERE id = $1"@),
        HttpMethod::Post => Ok(
            "INSERT INTO "@ + table
                + " (name, country, population, area) VALUES ($1, $2, $3, $4) RETURNING name"@,
        ),
        HttpMethod::Put => Ok(
            "UPDATE "@ + table
                + " SET (name, country, population, area) = ($1, $2, $3, $4) WHERE id = $5 RETURNING name"@,
        ),
        HttpMethod::Delete => Ok("DELETE FROM "@ + table + " WHERE id = $1 RETURNING name"@),
        _ => Err(QueryBuilderError::MethodUnsupported),
    }
}

/// The parameter types of the statement for `method`.
pub open spec fn spec_param_types(method: HttpMethod) -> Result<Seq<ParamType>, QueryBuilderError> {
    match method {
        HttpMethod::Get => Ok(seq![ParamType::Int4]),
        HttpMethod::Post => Ok(
            seq![ParamType::Varchar, ParamType::Varchar, ParamType::Int4, ParamType::Int4],
        ),
        HttpMethod::Put => Ok(
            seq![
                ParamType::Varchar,
                ParamType::Varchar,
                ParamType::Int4,
                ParamType::Int4,
                ParamType::Int4,
            ],
        ),
        HttpMethod::Delete => Ok(seq![ParamType::Int4]),
        _ => Err(QueryBuilderError::MethodUnsupported),
    }
}

/// `a`, then `b`, then `c`, as one string.
fn concat3(a: &str, b: &str, c: &str) -> (r: String)
    ensures
        r@ == a@ + b@ + c@,
{
    let mut s = String::from_str(a);
    s.append(b);
    s.append(c);
    s
}


/// The values an insert or update binds for a model with text fields `f`:
/// the first two as texts, the next two read as decimal numbers.
pub open spec fn spec_model_params<I>(f: Seq<Seq<char>>) -> Seq<SqlParamView<I>> {
    seq![
        SqlParamView::Text(f[0]),
        SqlParamView::Text(f[1]),
        SqlParamView::Int4(spec_parse_i32(f[2], 10)->Some_0),
        SqlParamView::Int4(spec_parse_i32(f[3], 10)->Some_0),
    ]
}

/// A query on one model: the model's name, its key, the model itself and
/// the request method.
#[derive(Debug)]
pub enum QueryBuilder<T, I> where T: GetAllFields {
    Single(String, Option<I>, Option<T>, HttpMethod),
}

impl<T: GetAllFields, I> Default for QueryBuilder<T, I> {
    fn default() -> (r: Self)
        ensures
            r.spec_structname() == Seq::<char>::empty(),
            r.spec_pkid() is None,
            r.spec_model() is None,
            r.spec_method() == HttpMethod::Get,
    {
        QueryBuilder::Single(String::new(), None, None, HttpMethod::Get)
    }
}

impl<T: GetAllFields, I> QueryBuilder<T, I> {
    /// The model name.
    pub open spec fn spec_structname(&self) -> Seq<char> {
        match self {
            QueryBuilder::Single(name, _, _, _) => name@,
        }
    }

    /// The primary key.
    pub open spec fn spec_pkid(&self) -> Option<I> {
        match self {
            QueryBuilder::Single(_, id, _, _) => *id,
        }
    }

    /// The model.
    pub open spec fn spec_model(&self) -> Option<T> {
        match self {
            QueryBuilder::Single(_, _, model, _) => *model,
        }
    }

    /// The request method.
    pub open spec fn spec_method(&self) -> HttpMethod {
        match self {
            QueryBuilder::Single(_, _, _, method) => *method,
        }
    }

    /// An empty builder: no name, key or model, and the `GET` method.
    pub fn builder() -> (r: Self)
        ensures
            r.spec_structname() == Seq::<char>::empty(),
            r.spec_pkid() is None,
            r.spec_model() is None,
            r.spec_method() == HttpMethod::Get,
    {
        Self::default()
    }

    /// Sets the model name and keeps the rest.
    pub fn structname(self, name: String) -> (r: Self)
        ensures
            r.spec_structname() == name@,
            r.spec_pkid() == self.spec_pkid(),
            r.spec_model() == self.spec_model(),
            r.spec_method() == self.spec_method(),
    {
        match self {
            QueryBuilder::Single(_, val2, val3, val4) => QueryBuilder::Single(name, val2, val3, val4),
        }
    }

    /// Sets the primary key and keeps the rest.
    pub fn pkid(self, id: I) -> (r: Self)
        ensures
            r.spec_structname() == self.spec_structname(),
            r.spec_pkid() == Some(id),
            r.spec_model() == self.spec_model(),
            r.spec_method() == self.spec_method(),
    {
        match self {
            QueryBuilder::Single(val1, _, val3, val4) => QueryBuilder::Single(val1, Some(id), val3, val4),
        }
    }

    /// Sets the model and keeps the rest.
    pub fn model(self, obj: T) -> (r: Self)
        ensures
            r.spec_structname() == self.spec_structname(),
            r.spec_pkid() == self.spec_pkid(),
            r.spec_model() == Some(obj),
            r.spec_method() == self.spec_method(),
    {
        match self {
            QueryBuilder::Single(val1, val2, _, val4) => QueryBuilder::Single(val1, val2, Some(obj), val4),
        }
    }

    /// Sets the request method and keeps the rest.
    pub fn method(self, method: HttpMethod) -> (r: Self)
        ensures
            r.spec_structname() == self.spec_structname(),
            r.spec_pkid() == self.spec_pkid(),
            r.spec_model() == self.spec_model(),
            r.spec_method() == method,
    {
        match self {
            QueryBuilder::Single(val1, val2, val3, _) => QueryBuilder::Single(val1, val2, val3, method),
        }
    }

    /// What building the query gives: the SQL text, the parameter types,
    /// the bound values and the fetch mode, or the error.
    pub open spec fn spec_build(&self) -> Result<
        (Seq<char>, Seq<ParamType>, Seq<SqlParamView<I>>, Fetch),
        QueryBuilderError,
    > {
        let table = spec_table_for(self.spec_structname())->Some_0;
        let method = self.spec_method();
        match spec_query_string(table, method) {
            Err(e) => Err(e),
            Ok(q) => {
                let types = spec_param_types(method)->Ok_0;
                let key = SqlParamView::Key(self.spec_pkid());
                match method {
                    HttpMethod::Post => match self.spec_model()->Some_0.spec_fields() {
                        Ok(f) => Ok((q, types, spec_model_params(f), Fetch::All)),
                        Err(_) => Err(QueryBuilderError::BadArgs("TODO")),
                    },
                    HttpMethod::Put => match self.spec_model()->Some_0.spec_fields() {
                        Ok(f) => Ok((q, types, spec_model_params(f).push(key), Fetch::All)),
                        Err(_) => Err(QueryBuilderError::BadArgs("TODO")),
                    },
                    _ => Ok((q, types, seq![key], Fetch::One)),
                }
            },
        }
    }

    /// Builds the statement for this query: the SQL text and parameter
    /// types for the method on the model's table, and the values to bind:
    /// the key for `GET` and `DELETE` (one row read back), the model's
    /// fields for `POST`, and the fields then the key for `PUT` (all rows
    /// read back). A model whose fields cannot be rendered gives
    /// `BadArgs`; a method other than these four gives `MethodUnsupported`.
    pub fn build(self) -> (r: Result<QueryPlan<I>, QueryBuilderError>)
        requires
            spec_table_for(self.spec_structname()) is Some,
            (self.spec_method() is Post || self.spec_method() is Put) ==> self.spec_model() is Some,
        ensures
            match self.spec_build() {
                Ok(t) => r matches Ok(p) && p.query@ == t.0 && p.param_types@ == t.1
                    && params_view(p.params@) == t.2 && p.fetch == t.3,
                Err(e) => r == Err::<QueryPlan<I>, _>(e),
            },
    {
        let ghost old_self = self;
        let QueryBuilder::Single(structname, id, model, method) = self;
        let table = match table_for(structname.as_str()) {
            Some(t) => t,
            None => return Err(QueryBuilderError::TableNotFound),
        };
        let query = Self::get_city_query_string(table, &method)?;
        let param_types = Self::get_city_statement_types(&method)?;
        match method {
            HttpMethod::Post | HttpMethod::Put => {
                let obj = match model {
                    Some(m) => m,
                    None => return Err(QueryBuilderError::BadArgs("TODO")),
                };
                let fields = match obj.get_all_fields() {
                    Ok(f) => f,
                    Err(_) => return Err(QueryBuilderError::BadArgs("TODO")),
                };
                let population: i32 = match parse_i32_radix(fields[2].as_str(), 10) {
                    Some(v) => v,
                    None => return Err(QueryBuilderError::BadArgs("TODO")),
                };
                let area: i32 = match parse_i32_radix(fields[3].as_str(), 10) {
                    Some(v) => v,
                    None => return Err(QueryBuilderError::BadArgs("TODO")),
                };
                let mut params = vec![
                    SqlParam::Text(fields[0].clone()),
                    SqlParam::Text(fields[1].clone()),
                    SqlParam::Int4(population),
                    SqlParam::Int4(area),
                ];
                let is_put = match method {
                    HttpMethod::Put => true,
                    _ => false,
                };
                if is_put {
                    params.push(SqlParam::Key(id));
                }
                proof {
                    let f = old_self.spec_model()->Some_0.spec_fields()->Ok_0;
                    assert(params_view(params@) =~= if is_put {
                        spec_model_params::<I>(f).push(SqlParamView::Key(old_self.spec_pkid()))
                    } else {
                        spec_model_params::<I>(f)
                    });
                }
                Ok(QueryPlan { query, param_types, params, fetch: Fetch::All })
            },
            _ => {
                let params = vec![SqlParam::Key(id)];
                assert(params_view(params@) =~= seq![SqlParamView::Key(old_self.spec_pkid())]);
                Ok(QueryPlan { query, param_types, params, fetch: Fetch::One })
            },
        }
    }

    /// The SQL text for `method` on table `table`; only `GET`, `POST`,
    /// `PUT` and `DELETE` have one.
    pub fn get_city_query_string(table: &str, method: &HttpMethod) -> (r: Result<
        String,
        QueryBuilderError,
    >)
        ensures
            match spec_query_string(table@, *method) {
                Ok(q) => r matches Ok(s) && s@ == q,
                Err(e) => r == Err::<String, _>(e),
            },
    {
        match method {
            HttpMethod::Get => Ok(concat3("SELECT * FROM ", table, " WHERE id = $1")),
            HttpMethod::Post => Ok(
                concat3(
                    "INSERT INTO ",
                    table,
                    " (name, country, population, area) VALUES ($1, $2, $3, $4) RETURNING name",
                ),
            ),
            HttpMethod::Put => Ok(
                concat3(
                    "UPDATE ",
                    table,
                    " SET (name, country, population, area) = ($1, $2, $3, $4) WHERE id = $5 RETURNING name",
                ),
            ),
            HttpMethod::Delete => Ok(
                concat3("DELETE FROM ", table, " WHERE id = $1 RETURNING name"),
            ),
            _ => Err(QueryBuilderError::MethodUnsupported),
        }
    }

    /// The parameter types the statement for `method` is prepared with.
    pub fn get_city_statement_types(method: &HttpMethod) -> (r: Result<
        Vec<ParamType>,
        QueryBuilderError,
    >)
        ensures
            match spec_param_types(*method) {
                Ok(ts) => r matches Ok(v) && v@ == ts,
                Err(e) => r == Err::<Vec<ParamType>, _>(e),
            },
    {
        match method {
            HttpMethod::Get => Ok(vec![ParamType::Int4]),
            HttpMethod::Post => Ok(
                vec![ParamType::Varchar, ParamType::Varchar, ParamType::Int4, ParamType::Int4],
            ),
            HttpMethod::Put => Ok(
                vec![
                    ParamType::Varchar,
                    ParamType::Varchar,
                    ParamType::Int4,
                    ParamType::Int4,
                    ParamType::Int4,
                ],
            ),
            HttpMethod::Delete => Ok(vec![ParamType::Int4]),
            _ => Err(QueryBuilderError::MethodUnsupported),
        }
    }
}

/// The column type a bound value needs: text is prepared as `Varchar`, a
/// number or a key as `Int4`.
pub open spec fn type_of_value<I>(v: SqlParamView<I>) -> ParamType {
    match v {
        SqlParamView::Text(_) => ParamType::Varchar,
        SqlParamView::Int4(_) => ParamType::Int4,
        SqlParamView::Key(_) => ParamType::Int4,
    }
}

/// A built statement is prepared with types that fit the values bound to
/// it, one for one: as many types as values, a text value's parameter is
/// `Varchar`, a number's or the key's is `Int4`.
pub proof fn lemma_param_types_fit_values<T: GetAllFields, I>(b: QueryBuilder<T, I>)
    requires
        b.spec_build() is Ok,
    ensures
        ({
            let t = b.spec_build()->Ok_0;
            &&& t.1.len() == t.2.len()
            &&& forall|i: int| 0 <= i < t.2.len() ==> #[trigger] t.1[i] == type_of_value(t.2[i])
        }),
{
    let t = b.spec_build()->Ok_0;
    assert forall|i: int| 0 <= i < t.2.len() implies #[trigger] t.1[i] == type_of_value(t.2[i]) by {
        if i == 4 {
            assert(t.2[4] == SqlParamView::Key(b.spec_pkid()));
        }
    }
}

/// Binding a city to an insert or update uses exactly its own values: its
/// name, its country text, its population and its area, whenever its country
/// is UTF-8 text.
pub proof fn lemma_city_params<I>(c: CityView)
    requires
        valid_utf8(c.country),
    ensures
        spec_all_fields(c) matches Ok(f) && spec_model_params::<I>(f) == seq![
            SqlParamView::<I>::Text(c.noname),
            SqlParamView::<I>::Text(decode_utf8(c.country)),
            SqlParamView::<I>::Int4(c.population),
            SqlParamView::<I>::Int4(c.area),
        ],
{
    lemma_decimal_roundtrip(c.population);
    lemma_decimal_roundtrip(c.area);
}

/// A builder for a city that can be rendered never fails on insert: it
/// binds the city's name, country text, population and area.
pub proof fn lemma_insert_city<I>(b: QueryBuilder<City, I>)
    requires
        spec_table_for(b.spec_structname()) is Some,
        b.spec_method() == HttpMethod::Post,
        b.spec_model() matches Some(c) && valid_utf8(c.country@),
    ensures
        b.spec_build() matches Ok(t) && t.2 == seq![
            SqlParamView::<I>::Text(b.spec_model()->Some_0.noname@),
            SqlParamView::<I>::Text(decode_utf8(b.spec_model()->Some_0.country@)),
            SqlParamView::<I>::Int4(b.spec_model()->Some_0.population),
            SqlParamView::<I>::Int4(b.spec_model()->Some_0.area),
        ] && t.3 == Fetch::All,
{
    lemma_city_params::<I>(b.spec_model()->Some_0@);
}

/// The name a write statement returned: the first column of its first row,
/// or `NoResults` when it returned no row.
pub fn post_put_or_delete_one(names: Vec<String>) -> (r: Result<String, QueryBuilderError>)
    ensures
        names.len() == 0 ==> r == Err::<String, _>(QueryBuilderError::NoResults),
        names.len() > 0 ==> (r matches Ok(n) && n@ == names[0]@),
{
    if names.len() == 0 {
        return Err(QueryBuilderError::NoResults);
    }
    Ok(names[0].clone())
}

/// The columns of a row of the `cities` table.
#[derive(Debug)]
pub struct CityRow {
    pub id: i32,
    pub name: String,
    pub country: String,
    pub population: i32,
    pub area: i32,
}

/// The city a row stores: its columns, the country kept as UTF-8 bytes.
pub open spec fn spec_city_of_row(row: &CityRow) -> CityView {
    spec_city_of_columns(row.id, row.name@, row.country@, row.population, row.area)
}

/// The city stored with the given column values.
pub open spec fn spec_city_of_columns(
    id: i32,
    name: Seq<char>,
    country: Seq<char>,
    population: i32,
    area: i32,
) -> CityView {
    CityView { id, noname: name, country: encode_utf8(country), population, area }
}

/// What a write stores, a read gives back: the row holding the values bound
/// for a city (with the city's key) is read back as the same city.
pub proof fn lemma_write_read_roundtrip(c: CityView)
    requires
        valid_utf8(c.country),
    ensures
        spec_all_fields(c) matches Ok(f) && spec_city_of_columns(
            c.id,
            f[0],
            f[1],
            spec_parse_i32(f[2], 10)->Some_0,
            spec_parse_i32(f[3], 10)->Some_0,
        ) == c,
{
    lemma_city_params::<i32>(c);
    vstd::utf8::decode_utf8_encode_utf8(c.country);
}

/// The city stored in the first of the rows a lookup returned.
pub fn get_one(rows: Vec<CityRow>) -> (c: City)
    requires
        rows.len() > 0,
    ensures
        c@ == spec_city_of_row(&rows[0]),
{
    let row = &rows[0];
    City {
        id: row.id,
        noname: row.name.clone(),
        country: utf8_bytes(row.country.as_str()),
        population: row.population,
        area: row.area,
    }
}

} // verus!
