use core::marker::PhantomData;
use vstd::prelude::*;
use vstd::string::StringExecFns;

verus! {

/// The filterable fields of the entries table.
#[derive(Debug, Clone, Copy, PartialEq, Eq, Structural)]
pub enum EntryFields {
    EventDate,
}

/// Rendering to the store's textual predicate syntax. `spec_to_sql` is the
/// mathematical statement of the rendering; `to_sql` computes it.
pub trait ToSql {
    spec fn spec_to_sql(&self) -> Seq<char>;

    fn to_sql(&self) -> (r: String)
        ensures
            r@ == self.spec_to_sql(),
    ;
}

/// Marker for a closed field set of one entity, usable in a `Filters`.
pub trait Fields {}

impl Fields for EntryFields {}

impl ToSql for EntryFields {
    open spec fn spec_to_sql(&self) -> Seq<char> {
        match self {
            EntryFields::EventDate => "event_date"@,
        }
    }

    fn to_sql(&self) -> (r: String) {
        match self {
            EntryFields::EventDate => "event_date".to_owned(),
        }
    }
}

/// The comparison operators of a predicate triple, each a fixed token.
#[derive(Debug, Clone, Copy, PartialEq, Eq, Structural)]
pub enum Operator {
    Equal,
    NotEqual,
    GreaterThan,
    GreaterThanOrEqual,
    LessThan,
    LessThanOrEqual,
}

impl ToSql for Operator {
    open spec fn spec_to_sql(&self) -> Seq<char> {
        match self {
            Operator::Equal => "="@,
            Operator::NotEqual => "!="@,
            Operator::GreaterThan => ">"@,
            Operator::GreaterThanOrEqual => ">="@,
            Operator::LessThan => "<"@,
            Operator::LessThanOrEqual => "<="@,
        }
    }

    fn to_sql(&self) -> (r: String) {
        match self {
            Operator::Equal => "=".to_owned(),
            Operator::NotEqual => "!=".to_owned(),
            Operator::GreaterThan => ">".to_owned(),
            Operator::GreaterThanOrEqual => ">=".to_owned(),
            Operator::LessThan => "<".to_owned(),
            Operator::LessThanOrEqual => "<=".to_owned(),
        }
    }
}

/// The connective joining one predicate triple to the previous one.
#[derive(Debug, Clone, Copy, PartialEq, Eq, Structural)]
pub enum BinaryOperator {
    And,
    Or,
}

impl ToSql for BinaryOperator {
    open spec fn spec_to_sql(&self) -> Seq<char> {
        match self {
            BinaryOperator::And => "AND"@,
            BinaryOperator::Or => "OR"@,
        }
    }

    fn to_sql(&self) -> (r: String) {
        match self {
            BinaryOperator::And => "AND".to_owned(),
            BinaryOperator::Or => "OR".to_owned(),
        }
    }
}

/// One accumulated predicate triple together with the connective that
/// joins it to the triples before it (ignored on the first triple).
struct FilterClause {
    connective: BinaryOperator,
    field_sql: String,
    operator_sql: String,
    value: String,
}

/// The mathematical image of one clause: the rendered field and operator
/// tokens, the literal value, and the joining connective.
pub struct ClauseView {
    pub connective: BinaryOperator,
    pub field: Seq<char>,
    pub operator: Seq<char>,
    pub value: Seq<char>,
}

impl View for FilterClause {
    type V = ClauseView;

    closed spec fn view(&self) -> ClauseView {
        ClauseView {
            connective: self.connective,
            field: self.field_sql@,
            operator: self.operator_sql@,
            value: self.value@,
        }
    }
}

/// `field op value` — the rendering of one triple without its connective.
pub open spec fn spec_clause_core(c: ClauseView) -> Seq<char> {
    c.field + " "@ + c.operator + " "@ + c.value
}

/// The space-joined rendering of a whole clause sequence: triples in
/// order, each after the first preceded by its connective token. The
/// concatenation is purely left-to-right; no grouping is inserted.
pub open spec fn spec_render(cs: Seq<ClauseView>) -> Seq<char>
    decreases cs.len(),
{
    if cs.len() == 0 {
        Seq::empty()
    } else if cs.len() == 1 {
        spec_clause_core(cs[0])
    } else {
        spec_render(cs.drop_last()) + " "@ + cs.last().connective.spec_to_sql() + " "@
            + spec_clause_core(cs.last())
    }
}

/// The decimal digit character of a value below ten.
pub open spec fn spec_digit(n: nat) -> char {
    if n == 0 {
        '0'
    } else if n == 1 {
        '1'
    } else if n == 2 {
        '2'
    } else if n == 3 {
        '3'
    } else if n == 4 {
        '4'
    } else if n == 5 {
        '5'
    } else if n == 6 {
        '6'
    } else if n == 7 {
        '7'
    } else if n == 8 {
        '8'
    } else {
        '9'
    }
}

/// The usual decimal rendering of a natural number, most significant
/// digit first, without leading zeros (except for zero itself).
pub open spec fn spec_dec_digits(n: nat) -> Seq<char>
    decreases n,
{
    if n < 10 {
        seq![spec_digit(n)]
    } else {
        spec_dec_digits(n / 10).push(spec_digit(n % 10))
    }
}

fn digit_str(d: usize) -> (r: &'static str)
    requires
        d < 10,
    ensures
        r@ == seq![spec_digit(d as nat)],
{
    if d == 0 {
        proof { reveal_strlit("0"); assert("0"@ =~= seq![spec_digit(0)]); }
        "0"
    } else if d == 1 {
        proof { reveal_strlit("1"); assert("1"@ =~= seq![spec_digit(1)]); }
        "1"
    } else if d == 2 {
        proof { reveal_strlit("2"); assert("2"@ =~= seq![spec_digit(2)]); }
        "2"
    } else if d == 3 {
        proof { reveal_strlit("3"); assert("3"@ =~= seq![spec_digit(3)]); }
        "3"
    } else if d == 4 {
        proof { reveal_strlit("4"); assert("4"@ =~= seq![spec_digit(4)]); }
        "4"
    } else if d == 5 {
        proof { reveal_strlit("5"); assert("5"@ =~= seq![spec_digit(5)]); }
        "5"
    } else if d == 6 {
        proof { reveal_strlit("6"); assert("6"@ =~= seq![spec_digit(6)]); }
        "6"
    } else if d == 7 {
        proof { reveal_strlit("7"); assert("7"@ =~= seq![spec_digit(7)]); }
        "7"
    } else if d == 8 {
        proof { reveal_strlit("8"); assert("8"@ =~= seq![spec_digit(8)]); }
        "8"
    } else {
        proof { reveal_strlit("9"); assert("9"@ =~= seq![spec_digit(9)]); }
        "9"
    }
}

fn dec_string(n: usize) -> (r: String)
    ensures
        r@ == spec_dec_digits(n as nat),
    decreases n,
{
    if n < 10 {
        digit_str(n).to_owned()
    } else {
        let mut s = dec_string(n / 10);
        s.append(digit_str(n % 10));
        proof {
            assert(s@ =~= spec_dec_digits((n / 10) as nat).push(spec_digit((n % 10) as nat)));
        }
        s
    }
}

/// `field op $k` — the rendering of one triple with its literal value
/// replaced by the store's positional placeholder number `k`.
pub open spec fn spec_clause_param(c: ClauseView, k: nat) -> Seq<char> {
    c.field + " "@ + c.operator + " $"@ + spec_dec_digits(k)
}

/// The placeholder form of the whole predicate: the same token order as
/// `spec_render`, with the i-th literal replaced by `$i` (one-based).
pub open spec fn spec_render_parameterized(cs: Seq<ClauseView>) -> Seq<char>
    decreases cs.len(),
{
    if cs.len() == 0 {
        Seq::empty()
    } else if cs.len() == 1 {
        spec_clause_param(cs[0], 1)
    } else {
        spec_render_parameterized(cs.drop_last()) + " "@ + cs.last().connective.spec_to_sql()
            + " "@ + spec_clause_param(cs.last(), cs.len())
    }
}

/// The views of a sequence of owned strings.
pub open spec fn string_views(ss: Seq<String>) -> Seq<Seq<char>> {
    ss.map_values(|s: String| s@)
}

/// The literal values of a clause sequence, in order.
pub open spec fn clause_values(cs: Seq<ClauseView>) -> Seq<Seq<char>> {
    cs.map_values(|c: ClauseView| c.value)
}

/// An ordered, append-only sequence of (field, operator, literal) triples
/// joined by AND/OR, over the closed field set `T` of one entity.
pub struct Filters<T> where T: Fields + ToSql {
    clauses: Vec<FilterClause>,
    fantom: PhantomData<T>,
}

impl<T> View for Filters<T> where T: Fields + ToSql {
    type V = Seq<ClauseView>;

    closed spec fn view(&self) -> Seq<ClauseView> {
        self.clauses@.map_values(|c: FilterClause| c@)
    }
}

impl<T> Filters<T> where T: Fields + ToSql {
    /// An empty filter; it renders to the empty predicate.
    pub fn new() -> (r: Self)
        ensures
            r@ == Seq::<ClauseView>::empty(),
    {
        let r = Filters { clauses: Vec::new(), fantom: PhantomData };
        proof {
            assert(r@ =~= Seq::<ClauseView>::empty());
        }
        r
    }

    fn push_clause(&mut self, connective: BinaryOperator, field: &T, operator: Operator, value: String)
        ensures
            final(self)@ == old(self)@.push((ClauseView {
                connective: connective,
                field: field.spec_to_sql(),
                operator: operator.spec_to_sql(),
                value: value@,
            })),
    {
        let clause = FilterClause {
            connective,
            field_sql: field.to_sql(),
            operator_sql: operator.to_sql(),
            value,
        };
        self.clauses.push(clause);
        proof {
            assert(final(self)@ =~= old(self)@.push((ClauseView {
                connective: connective,
                field: field.spec_to_sql(),
                operator: operator.spec_to_sql(),
                value: value@,
            })));
        }
    }

    /// Appends `field op value`, joined to any earlier triples by `AND`.
    pub fn and(&mut self, field: &T, operator: Operator, value: String)
        ensures
            final(self)@ == old(self)@.push((ClauseView {
                connective: BinaryOperator::And,
                field: field.spec_to_sql(),
                operator: operator.spec_to_sql(),
                value: value@,
            })),
    {
        self.push_clause(BinaryOperator::And, field, operator, value);
    }

    /// Appends `field op value`, joined to any earlier triples by `OR`.
    pub fn or(&mut self, field: &T, operator: Operator, value: String)
        ensures
            final(self)@ == old(self)@.push((ClauseView {
                connective: BinaryOperator::Or,
                field: field.spec_to_sql(),
                operator: operator.spec_to_sql(),
                value: value@,
            })),
    {
        self.push_clause(BinaryOperator::Or, field, operator, value);
    }

    /// The space-joined token sequence of the accumulated triples, with
    /// the literal values inlined verbatim. For statements sent to the
    /// store, prefer `build_parameterized`, which keeps untrusted values
    /// out of the statement text.
    pub fn build(&self) -> (r: String)
        ensures
            r@ == spec_render(self@),
    {
        let mut result = String::new();
        let mut i: usize = 0;
        while i < self.clauses.len()
            invariant
                i <= self.clauses.len(),
                self@.len() == self.clauses@.len(),
                result@ == spec_render(self@.take(i as int)),
            decreases self.clauses.len() - i,
        {
            let ghost prefix = self@.take(i as int);
            let c = &self.clauses[i];
            if i > 0 {
                result.append(" ");
                let conn = c.connective.to_sql();
                result.append(conn.as_str());
                result.append(" ");
            }
            result.append(c.field_sql.as_str());
            result.append(" ");
            result.append(c.operator_sql.as_str());
            result.append(" ");
            result.append(c.value.as_str());
            proof {
                let next = self@.take(i + 1 as int);
                assert(next.drop_last() =~= prefix);
                assert(next.last() == self@[i as int]);
                assert(result@ =~= spec_render(next));
            }
            i = i + 1;
        }
        proof {
            assert(self@.take(self.clauses@.len() as int) =~= self@);
        }
        result
    }

    /// The predicate with positional placeholders in place of the literal
    /// values, together with the values themselves in placeholder order.
    /// Binding the values separately keeps untrusted input out of the
    /// statement text.
    pub fn build_parameterized(&self) -> (r: (String, Vec<String>))
        ensures
            r.0@ == spec_render_parameterized(self@),
            string_views(r.1@) == clause_values(self@),
    {
        let mut result = String::new();
        let mut values: Vec<String> = Vec::new();
        let mut i: usize = 0;
        proof {
            assert(string_views(values@) =~= clause_values(self@.take(0)));
        }
        while i < self.clauses.len()
            invariant
                i <= self.clauses.len(),
                self@.len() == self.clauses@.len(),
                result@ == spec_render_parameterized(self@.take(i as int)),
                values@.len() == i,
                string_views(values@) == clause_values(self@.take(i as int)),
            decreases self.clauses.len() - i,
        {
            let ghost prefix = self@.take(i as int);
            let c = &self.clauses[i];
            if i > 0 {
                result.append(" ");
                let conn = c.connective.to_sql();
                result.append(conn.as_str());
                result.append(" ");
            }
            result.append(c.field_sql.as_str());
            result.append(" ");
            result.append(c.operator_sql.as_str());
            result.append(" $");
            let placeholder = dec_string(i + 1);
            result.append(placeholder.as_str());
            let ghost vals0 = values@;
            values.push(c.value.clone());
            proof {
                let next = self@.take(i + 1 as int);
                assert(next.drop_last() =~= prefix);
                assert(next.last() == self@[i as int]);
                assert(result@ =~= spec_render_parameterized(next));
                assert forall|j: int| 0 <= j <= i as int implies values@[j]@ == next[j].value by {
                    if j < i as int {
                        assert(values@[j] == vals0[j]);
                        assert(string_views(vals0)[j] == vals0[j]@);
                        assert(clause_values(prefix)[j] == prefix[j].value);
                        assert(next[j] == self@[j]);
                        assert(prefix[j] == self@[j]);
                    } else {
                        assert(values@[j] == self.clauses@[i as int].value);
                        assert(next[j].value == self@[i as int].value);
                    }
                }
                assert(string_views(values@) =~= clause_values(next));
            }
            i = i + 1;
        }
        proof {
            assert(self@.take(self.clauses@.len() as int) =~= self@);
        }
        (result, values)
    }
}

/// The clause appended for one bound of a date range query.
pub open spec fn spec_date_clause(operator: Operator, value: Seq<char>) -> ClauseView {
    ClauseView {
        connective: BinaryOperator::And,
        field: "event_date"@,
        operator: operator.spec_to_sql(),
        value: value,
    }
}

/// Builds the entries filter for an optional date range: a lower bound
/// when a start date is given, an upper bound when an end date is given,
/// both joined by `AND` when both are present.
pub fn date_range_filter(start_date: Option<String>, end_date: Option<String>) -> (f: Filters<
    EntryFields,
>)
    ensures
        f@ == (match (start_date, end_date) {
            (Option::None, Option::None) => Seq::<ClauseView>::empty(),
            (Option::Some(s), Option::None) => seq![
                spec_date_clause(Operator::GreaterThanOrEqual, s@),
            ],
            (Option::None, Option::Some(e)) => seq![
                spec_date_clause(Operator::LessThanOrEqual, e@),
            ],
            (Option::Some(s), Option::Some(e)) => seq![
                spec_date_clause(Operator::GreaterThanOrEqual, s@),
                spec_date_clause(Operator::LessThanOrEqual, e@),
            ],
        }),
{
    let ghost gs = start_date;
    let ghost ge = end_date;
    let mut filters = Filters::<EntryFields>::new();
    if let Some(start) = start_date {
        filters.and(&EntryFields::EventDate, Operator::GreaterThanOrEqual, start);
    }
    if let Some(end) = end_date {
        filters.and(&EntryFields::EventDate, Operator::LessThanOrEqual, end);
    }
    proof {
        match (gs, ge) {
            (Option::None, Option::None) => {
                assert(filters@ =~= Seq::<ClauseView>::empty());
            },
            (Option::Some(s), Option::None) => {
                assert(filters@ =~= seq![
                    spec_date_clause(Operator::GreaterThanOrEqual, s@),
                ]);
            },
            (Option::None, Option::Some(e)) => {
                assert(filters@ =~= seq![
                    spec_date_clause(Operator::LessThanOrEqual, e@),
                ]);
            },
            (Option::Some(s), Option::Some(e)) => {
                assert(filters@ =~= seq![
                    spec_date_clause(Operator::GreaterThanOrEqual, s@),
                    spec_date_clause(Operator::LessThanOrEqual, e@),
                ]);
            },
        }
    }
    filters
}

/// A second closed field set, over another entity, exercising the
/// builder's genericity in the integration tests.
#[derive(Debug, Clone, Copy, PartialEq, Eq, Structural)]
pub enum StudentFields {
    Name,
    Age,
}

impl Fields for StudentFields {}

impl ToSql for StudentFields {
    open spec fn spec_to_sql(&self) -> Seq<char> {
        match self {
            StudentFields::Name => "name"@,
            StudentFields::Age => "age"@,
        }
    }

    fn to_sql(&self) -> (r: String) {
        match self {
            StudentFields::Name => "name".to_owned(),
            StudentFields::Age => "age".to_owned(),
        }
    }
}

} // verus!
