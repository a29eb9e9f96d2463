//! Template strings: text with `${variable}` and `${variable:regex}` in it,
//! which are filled in from a lookup.

use vstd::prelude::*;
use vstd::string::*;

use crate::text::{chars_of, push_chars};

verus! {

/// `regex::Regex`, a compiled regular expression. Of a value only the
/// pattern it was made from is spoken of, by [`pattern_of`].
#[verifier::external_type_specification]
#[verifier::external_body]
pub struct ExRegex(regex::Regex);

/// `regex::Error`, the failure to compile a pattern. Nothing is known of
/// what a value holds.
#[verifier::external_type_specification]
#[verifier::external_body]
pub struct ExRegexError(regex::Error);

/// Whether `pattern` is a regular expression that `regex::Regex::new` accepts.
pub uninterp spec fn compiles(pattern: Seq<char>) -> bool;

/// The pattern that a compiled regular expression was made from.
pub uninterp spec fn pattern_of(regex: regex::Regex) -> Seq<char>;

/// What the first capture group of `pattern` holds at the leftmost match of
/// `pattern` in `text`: nothing where there is no match, where the pattern
/// has no group, or where the group took no part in the match.
pub uninterp spec fn captured(pattern: Seq<char>, text: Seq<char>) -> Option<Seq<char>>;

/// Compiles a pattern with `regex::Regex::new`. The outcome is named: the
/// call succeeds for the patterns that the crate accepts, and the compiled
/// expression remembers its pattern, as `Regex::as_str` gives it back.
#[verifier::external_body]
fn compile(pattern: &str) -> (r: Result<regex::Regex, regex::Error>)
    ensures
        r is Ok == compiles(pattern@),
        r matches Ok(regex) ==> pattern_of(regex) == pattern@,
{
    regex::Regex::new(pattern)
}

/// Searches `text` with `Regex::captures` and takes the text of group 1 with
/// `Captures::get`. The outcome is named by the pattern of the expression and
/// the text.
#[verifier::external_body]
fn first_group(regex: &regex::Regex, text: &str) -> (r: Option<String>)
    ensures
        match r {
            Some(group) => captured(pattern_of(*regex), text@) == Some(group@),
            None => captured(pattern_of(*regex), text@) is None,
        },
{
    regex.captures(text).and_then(|found| found.get(1)).map(|group| group.as_str().to_string())
}

/// What is wrong with a template or with its filling.
#[derive(Debug)]
pub enum TemplateError {
    /// The regular expression of a placeholder is none.
    Regex(regex::Error),
    /// The lookup has no value for the variable of this placeholder.
    VariableNotFound(String),
    /// The regular expression of the placeholder `template` finds nothing to
    /// take in the value `variable`.
    VariableParse { template: String, variable: String },
}

/// What is wrong with the filling of a placeholder, as a mathematical value.
pub enum Trouble {
    NotFound(Seq<char>),
    Parse { template: Seq<char>, variable: Seq<char> },
}

/// Whether `error` reports `trouble`.
pub open spec fn reports(error: Option<TemplateError>, trouble: Option<Trouble>) -> bool {
    match trouble {
        None => error is None,
        Some(Trouble::NotFound(t)) => error matches Some(TemplateError::VariableNotFound(x)) && x@
            == t,
        Some(Trouble::Parse { template, variable }) => error matches Some(
            TemplateError::VariableParse { template: t, variable: v },
        ) && t@ == template && v@ == variable,
    }
}

/// Whether `s` has the form of a placeholder: `${`, anything, `}`.
pub open spec fn is_placeholder(s: Seq<char>) -> bool {
    s.len() >= 3 && s[0] == '$' && s[1] == '{' && s.last() == '}'
}

/// The place of the first `:` of `s` from `from` on, if there is one.
pub open spec fn colon_at(s: Seq<char>, from: int) -> Option<int>
    decreases s.len() - from,
{
    if from < 0 || from >= s.len() {
        None
    } else if s[from] == ':' {
        Some(from)
    } else {
        colon_at(s, from + 1)
    }
}

/// A part of a template, as a mathematical value.
pub enum TokenView {
    /// Text that stands for itself.
    Text(Seq<char>),
    /// A placeholder: its text, where the name of its variable ends, and the
    /// pattern of its regular expression if it has one.
    Replace { template: Seq<char>, variable_len: int, pattern: Option<Seq<char>> },
}

impl TokenView {
    /// The name of the variable of a placeholder.
    pub open spec fn variable(self) -> Seq<char> {
        match self {
            TokenView::Text(_) => Seq::empty(),
            TokenView::Replace { template, variable_len, .. } => template.subrange(
                2,
                variable_len,
            ),
        }
    }

    /// The text of the part as it stands in the template.
    pub open spec fn source(self) -> Seq<char> {
        match self {
            TokenView::Text(t) => t,
            TokenView::Replace { template, .. } => template,
        }
    }

    /// What the part becomes when the lookup answers `answer` for its
    /// variable, and what is wrong if anything is. Text stands for itself. A
    /// placeholder becomes the value of its variable, or, where it has a
    /// regular expression, what the first group of the expression takes of
    /// the value; where the variable has no value or the expression takes
    /// nothing, the placeholder stays as it is.
    pub open spec fn filled(self, answer: Option<Seq<char>>) -> (Seq<char>, Option<Trouble>) {
        match self {
            TokenView::Text(t) => (t, None),
            TokenView::Replace { template, variable_len, pattern } => match answer {
                None => (template, Some(Trouble::NotFound(template))),
                Some(value) => match pattern {
                    None => (value, None),
                    Some(p) => match captured(p, value) {
                        Some(group) => (group, None),
                        None => (template, Some(Trouble::Parse { template, variable: value })),
                    },
                },
            },
        }
    }
}

/// The placeholder that the text `s` of the form of a placeholder is: the
/// name of its variable ends at the first `:`, behind which its regular
/// expression stands, or at its end.
pub open spec fn placeholder(s: Seq<char>) -> TokenView {
    match colon_at(s, 0) {
        None => TokenView::Replace { template: s, variable_len: s.len() - 1, pattern: None },
        Some(p) => TokenView::Replace {
            template: s,
            variable_len: p,
            pattern: Some(s.subrange(p + 1, s.len() - 1)),
        },
    }
}

/// Whether the regular expression of the text `s` of the form of a
/// placeholder is none, so that `s` cannot be a placeholder.
pub open spec fn is_broken(s: Seq<char>) -> bool {
    match colon_at(s, 0) {
        None => false,
        Some(p) => !compiles(s.subrange(p + 1, s.len() - 1)),
    }
}

/// The first `:` of a placeholder stands behind `${` and before `}`.
pub proof fn lemma_colon_inside(s: Seq<char>, from: int)
    requires
        is_placeholder(s),
        0 <= from <= 2,
    ensures
        colon_at(s, from) matches Some(p) ==> 2 <= p < s.len() - 1,
        colon_at(s, from) == colon_at(s, 2),
    decreases 2 - from,
{
    if from < 2 {
        lemma_colon_inside(s, from + 1);
    } else {
        lemma_colon_range(s, 2);
    }
}

/// A `:` that is found stands at or behind the place from which it was looked
/// for, and where it is found there is one.
pub proof fn lemma_colon_range(s: Seq<char>, from: int)
    requires
        0 <= from,
    ensures
        colon_at(s, from) matches Some(p) ==> from <= p < s.len() && s[p] == ':',
    decreases s.len() - from,
{
    if from < s.len() && s[from] != ':' {
        lemma_colon_range(s, from + 1);
    }
}

/// The string of the characters `chars[from..to]`.
fn slice(chars: &Vec<char>, from: usize, to: usize) -> (r: String)
    requires
        from <= to <= chars@.len(),
    ensures
        r@ == chars@.subrange(from as int, to as int),
{
    let mut r = String::new();
    push_chars(&mut r, chars, from, to);
    assert(r@ =~= chars@.subrange(from as int, to as int));
    r
}

/// A placeholder of a template.
#[derive(Debug)]
pub struct ReplaceToken {
    template: String,
    variable_len: usize,
    regex: Option<regex::Regex>,
}

impl View for ReplaceToken {
    type V = TokenView;

    closed spec fn view(&self) -> TokenView {
        TokenView::Replace {
            template: self.template@,
            variable_len: self.variable_len as int,
            pattern: match self.regex {
                Some(regex) => Some(pattern_of(regex)),
                None => None,
            },
        }
    }
}

impl ReplaceToken {
    /// The name of the variable lies inside the text of the placeholder.
    pub closed spec fn wf(&self) -> bool {
        2 <= self.variable_len <= self.template@.len()
    }

    /// Reads a placeholder. `template` is its text, with `${` and `}`.
    fn new(template: &str) -> (r: Result<Self, TemplateError>)
        requires
            is_placeholder(template@),
        ensures
            r is Ok == !is_broken(template@),
            r matches Ok(token) ==> token@ == placeholder(template@) && token.wf(),
            r matches Err(e) ==> e is Regex,
    {
        let chars = chars_of(template);
        let len = chars.len();
        let mut p: usize = 0;
        while p < len && chars[p] != ':'
            invariant
                p <= len == chars@.len(),
                colon_at(chars@, 0) == colon_at(chars@, p as int),
            decreases len - p,
        {
            p += 1;
        }
        proof {
            lemma_colon_inside(chars@, 0);
            lemma_colon_range(chars@, 0);
        }
        if p < len {
            let pattern = slice(&chars, p + 1, len - 1);
            match compile(pattern.as_str()) {
                Ok(regex) => Ok(
                    ReplaceToken {
                        template: String::from_str(template),
                        variable_len: p,
                        regex: Some(regex),
                    },
                ),
                Err(e) => Err(TemplateError::Regex(e)),
            }
        } else {
            Ok(
                ReplaceToken {
                    template: String::from_str(template),
                    variable_len: len - 1,
                    regex: None,
                },
            )
        }
    }

    /// The name of the variable.
    fn variable(&self) -> (name: &str)
        requires
            self.wf(),
        ensures
            name@ == self@.variable(),
    {
        self.template.as_str().substring_char(2, self.variable_len)
    }

    /// Fills the placeholder in with the answer of the lookup for its
    /// variable.
    fn fill(&self, answer: Option<String>) -> (r: (String, Option<TemplateError>))
        ensures
            r.0@ == self@.filled(
                match answer {
                    Some(v) => Some(v@),
                    None => None,
                },
            ).0,
            reports(
                r.1,
                self@.filled(
                    match answer {
                        Some(v) => Some(v@),
                        None => None,
                    },
                ).1,
            ),
    {
        let value = match answer {
            Some(v) => v,
            None => {
                return (
                    self.template.clone(),
                    Some(TemplateError::VariableNotFound(self.template.clone())),
                );
            },
        };
        match &self.regex {
            None => (value, None),
            Some(regex) => match first_group(regex, value.as_str()) {
                Some(group) => (group, None),
                None => (
                    self.template.clone(),
                    Some(
                        TemplateError::VariableParse {
                            template: self.template.clone(),
                            variable: value,
                        },
                    ),
                ),
            },
        }
    }
}

/// A part of a template.
#[derive(Debug)]
pub enum Token {
    Text(String),
    Replace(ReplaceToken),
}

impl View for Token {
    type V = TokenView;

    open spec fn view(&self) -> TokenView {
        match self {
            Token::Text(t) => TokenView::Text(t@),
            Token::Replace(r) => r@,
        }
    }
}

/// Whether the lookup `map` may answer `answer` for the variable of `token`.
/// Text has no variable, and the lookup is not asked.
pub open spec fn answers<F: Fn(&str) -> Option<String>>(
    map: &F,
    token: TokenView,
    answer: Option<String>,
) -> bool {
    token is Text || exists|name: &str| name@ == token.variable() && map.ensures((name,), answer)
}

/// The characters of an answer.
pub open spec fn answer_view(answer: Option<String>) -> Option<Seq<char>> {
    match answer {
        Some(v) => Some(v@),
        None => None,
    }
}

impl Token {
    /// A placeholder is well formed.
    pub open spec fn wf(&self) -> bool {
        match self {
            Token::Text(_) => true,
            Token::Replace(r) => r.wf() && r@ is Replace,
        }
    }

    /// A part that stands for itself.
    pub fn new_text(text: &str) -> (token: Self)
        ensures
            token@ == TokenView::Text(text@),
            token.wf(),
    {
        Token::Text(String::from_str(text))
    }

    /// Reads a placeholder. `template` is its text, with `${` and `}`. Where
    /// its regular expression is none, the text stands for itself, and the
    /// failure is handed out.
    pub fn new_replace(template: &str) -> (r: (Self, Option<TemplateError>))
        requires
            is_placeholder(template@),
        ensures
            r.0.wf(),
            r.0@ == if is_broken(template@) {
                TokenView::Text(template@)
            } else {
                placeholder(template@)
            },
            r.1 is Some == is_broken(template@),
            r.1 matches Some(e) ==> e is Regex,
    {
        match ReplaceToken::new(template) {
            Ok(token) => (Token::Replace(token), None),
            Err(e) => (Token::new_text(template), Some(e)),
        }
    }

    /// Fills the part in, asking `map` for the value of its variable.
    pub fn parse<F: Fn(&str) -> Option<String>>(&self, map: &F) -> (r: (
        String,
        Option<TemplateError>,
    ))
        requires
            self.wf(),
            forall|s: &str| map.requires((s,)),
        ensures
            exists|answer: Option<String>|
                #![trigger answers(map, self@, answer)]
                answers(map, self@, answer) && r.0@ == self@.filled(answer_view(answer)).0
                    && reports(r.1, self@.filled(answer_view(answer)).1),
    {
        match self {
            Token::Text(t) => {
                assert(answers(map, self@, None));
                (t.clone(), None)
            },
            Token::Replace(token) => {
                let name = token.variable();
                let answer = map(name);
                assert(answers(map, self@, answer));
                token.fill(answer)
            },
        }
    }
}

/// Whether a placeholder opens at place `i` of `s`.
pub open spec fn opens_at(s: Seq<char>, i: int) -> bool {
    0 <= i && i + 1 < s.len() && s[i] == '$' && s[i + 1] == '{'
}

/// The first place from `i` on at which a placeholder opens, or the length of
/// `s` where none does.
pub open spec fn next_open(s: Seq<char>, i: int) -> int
    decreases s.len() - i,
{
    if i < 0 || i >= s.len() {
        s.len() as int
    } else if opens_at(s, i) {
        i
    } else {
        next_open(s, i + 1)
    }
}

/// The place behind the `}` that closes what is open at depth `depth` when
/// `s` is read from `j` on, if it is closed.
pub open spec fn close_of(s: Seq<char>, j: int, depth: nat) -> Option<int>
    decreases s.len() - j,
{
    if depth == 0 {
        Some(j)
    } else if j < 0 || j >= s.len() {
        None
    } else if s[j] == '{' {
        close_of(s, j + 1, depth + 1)
    } else if s[j] == '}' {
        close_of(s, j + 1, (depth - 1) as nat)
    } else {
        close_of(s, j + 1, depth)
    }
}

/// The text at the front of a template that is read from `i` on: what stands
/// before the next placeholder, if anything does.
pub open spec fn leading_text(s: Seq<char>, i: int) -> Seq<TokenView> {
    if i < next_open(s, i) {
        seq![TokenView::Text(s.subrange(i, next_open(s, i)))]
    } else {
        Seq::empty()
    }
}

/// The part that the text `piece` of the form of a placeholder becomes.
pub open spec fn token_of(piece: Seq<char>) -> TokenView {
    if is_broken(piece) {
        TokenView::Text(piece)
    } else {
        placeholder(piece)
    }
}

/// The parts of a template that is read from `i` on. Text runs up to the next
/// `${`. A `${` whose braces are closed is a placeholder up to the `}` that
/// closes it; one whose braces are not closed is no placeholder, and its `$`
/// is text.
pub open spec fn parts(s: Seq<char>, i: int) -> Seq<TokenView>
    decreases s.len() - i,
{
    if i < 0 || i >= s.len() {
        Seq::empty()
    } else {
        let j = next_open(s, i);
        if j >= s.len() {
            leading_text(s, i)
        } else {
            match close_of(s, j + 2, 1) {
                Some(k) => leading_text(s, i) + seq![token_of(s.subrange(j, k))] + parts(
                    s,
                    if i < k <= s.len() {
                        k
                    } else {
                        i + 1
                    },
                ),
                None => leading_text(s, i) + seq![TokenView::Text(s.subrange(j, j + 1))] + parts(
                    s,
                    if j + 1 > i {
                        j + 1
                    } else {
                        i + 1
                    },
                ),
            }
        }
    }
}

/// The number of placeholders of a template, read from `i` on, whose regular
/// expression is none.
pub open spec fn broken(s: Seq<char>, i: int) -> nat
    decreases s.len() - i,
{
    if i < 0 || i >= s.len() {
        0
    } else {
        let j = next_open(s, i);
        if j >= s.len() {
            0
        } else {
            match close_of(s, j + 2, 1) {
                Some(k) => (if is_broken(s.subrange(j, k)) {
                    1nat
                } else {
                    0
                }) + broken(
                    s,
                    if i < k <= s.len() {
                        k
                    } else {
                        i + 1
                    },
                ),
                None => broken(
                    s,
                    if j + 1 > i {
                        j + 1
                    } else {
                        i + 1
                    },
                ),
            }
        }
    }
}

/// The next placeholder opens at or behind the place from which it is looked
/// for.
pub proof fn lemma_next_open(s: Seq<char>, i: int)
    requires
        0 <= i <= s.len(),
    ensures
        i <= next_open(s, i) <= s.len(),
        next_open(s, i) < s.len() ==> opens_at(s, next_open(s, i)),
    decreases s.len() - i,
{
    if i < s.len() && !opens_at(s, i) {
        lemma_next_open(s, i + 1);
    }
}

/// The mathematical value of a list of parts.
pub open spec fn tokens_view(tokens: Seq<Token>) -> Seq<TokenView> {
    tokens.map_values(|t: Token| t@)
}

/// A template, read into its parts.
#[derive(Debug)]
pub struct TemplateParser(Vec<Token>);

impl TemplateParser {
    /// The parts of the template.
    pub closed spec fn tokens(&self) -> Seq<TokenView> {
        tokens_view(self.0@)
    }

    /// Every part is well formed.
    pub closed spec fn wf(&self) -> bool {
        forall|i: int| 0 <= i < self.0@.len() ==> (#[trigger] self.0@[i]).wf()
    }

    /// Reads a template. A placeholder whose regular expression is none
    /// stands for itself, and its failure is handed out.
    pub fn new(template: &str) -> (r: (Self, Vec<TemplateError>))
        ensures
            r.0.wf(),
            r.0.tokens() == parts(template@, 0),
            r.1@.len() == broken(template@, 0),
            forall|i: int| 0 <= i < r.1@.len() ==> (#[trigger] r.1@[i]) is Regex,
    {
        let mut tokens: Vec<Token> = Vec::new();
        let mut errs: Vec<TemplateError> = Vec::new();
        let chars = chars_of(template);
        let n = chars.len();
        let ghost s = chars@;
        let mut i: usize = 0;
        proof {
            assert(tokens_view(tokens@) + parts(s, 0) =~= parts(s, 0));
        }
        while i < n
            invariant
                i <= n == s.len(),
                s == chars@,
                s == template@,
                forall|k: int| 0 <= k < tokens@.len() ==> (#[trigger] tokens@[k]).wf(),
                tokens_view(tokens@) + parts(s, i as int) == parts(s, 0),
                errs@.len() + broken(s, i as int) == broken(s, 0),
                forall|k: int| 0 <= k < errs@.len() ==> (#[trigger] errs@[k]) is Regex,
            ensures
                i == n,
            decreases n - i,
        {
            let start = i;
            let ghost before = tokens_view(tokens@);
            while i < n && !(chars[i] == '$' && i + 1 < n && chars[i + 1] == '{')
                invariant
                    start <= i <= n == s.len(),
                    s == chars@,
                    next_open(s, start as int) == next_open(s, i as int),
                decreases n - i,
            {
                i += 1;
            }
            proof {
                lemma_next_open(s, start as int);
                assert(next_open(s, start as int) == i);
            }
            if start < i {
                tokens.push(Token::new_text(slice(&chars, start, i).as_str()));
            }
            proof {
                assert(tokens_view(tokens@) =~= before + leading_text(s, start as int));
            }
            if i >= n {
                proof {
                    assert(parts(s, start as int) =~= leading_text(s, start as int));
                    assert(parts(s, i as int) =~= Seq::empty());
                    assert(tokens_view(tokens@) + parts(s, i as int) =~= before + parts(
                        s,
                        start as int,
                    ));
                }
                break ;
            }
            let mut brace_count: usize = 1;
            let mut j: usize = i + 2;
            while j < n && brace_count > 0
                invariant
                    i + 2 <= j <= n == s.len(),
                    s == chars@,
                    brace_count <= j - i,
                    close_of(s, i + 2, 1) == close_of(s, j as int, brace_count as nat),
                    brace_count == 0 ==> j > i + 2 && s[j - 1] == '}',
                    opens_at(s, i as int),
                decreases n - j,
            {
                if chars[j] == '{' {
                    brace_count += 1;
                } else if chars[j] == '}' {
                    brace_count -= 1;
                }
                j += 1;
            }
            let ghost middle = tokens_view(tokens@);
            if brace_count == 0 {
                let content = slice(&chars, i, j);
                let (token, err) = Token::new_replace(content.as_str());
                tokens.push(token);
                if let Some(e) = err {
                    errs.push(e);
                }
                proof {
                    let piece = s.subrange(i as int, j as int);
                    assert(tokens_view(tokens@) =~= middle.push(token_of(piece)));
                    assert(tokens_view(tokens@) + parts(s, j as int) =~= before + parts(
                        s,
                        start as int,
                    ));
                }
                i = j;
            } else {
                tokens.push(Token::new_text(slice(&chars, i, i + 1).as_str()));
                proof {
                    let dollar = TokenView::Text(s.subrange(i as int, i + 1));
                    assert(tokens_view(tokens@) =~= middle.push(dollar));
                    assert(tokens_view(tokens@) + parts(s, i + 1) =~= before + parts(
                        s,
                        start as int,
                    ));
                }
                i += 1;
            }
        }
        proof {
            assert(tokens_view(tokens@) + Seq::empty() =~= tokens_view(tokens@));
        }
        (TemplateParser(tokens), errs)
    }
}

/// The text that a template becomes when the lookup gives `given` for the
/// variables of its parts, part by part.
pub open spec fn filled_all(tokens: Seq<TokenView>, given: Seq<Option<String>>) -> Seq<char>
    decreases tokens.len(),
{
    if tokens.len() == 0 {
        Seq::empty()
    } else {
        filled_all(tokens.drop_last(), given.drop_last()) + tokens.last().filled(
            answer_view(given.last()),
        ).0
    }
}

/// What is wrong with the filling of a template when the lookup gives `given`
/// for the variables of its parts, in the order of the parts.
pub open spec fn troubles_all(tokens: Seq<TokenView>, given: Seq<Option<String>>) -> Seq<Trouble>
    decreases tokens.len(),
{
    if tokens.len() == 0 {
        Seq::empty()
    } else {
        let before = troubles_all(tokens.drop_last(), given.drop_last());
        match tokens.last().filled(answer_view(given.last())).1 {
            Some(t) => before.push(t),
            None => before,
        }
    }
}

/// Whether `errors` report `troubles`, one for one.
pub open spec fn report_all(errors: Seq<TemplateError>, troubles: Seq<Trouble>) -> bool {
    &&& errors.len() == troubles.len()
    &&& forall|i: int|
        0 <= i < errors.len() ==> reports(Some(#[trigger] errors[i]), Some(troubles[i]))
}

/// Whether `given` is what the lookup `map` may answer for the variables of
/// `tokens`, part by part.
pub open spec fn given_by<F: Fn(&str) -> Option<String>>(
    map: &F,
    tokens: Seq<TokenView>,
    given: Seq<Option<String>>,
) -> bool {
    &&& given.len() == tokens.len()
    &&& forall|i: int| 0 <= i < tokens.len() ==> answers(map, #[trigger] tokens[i], given[i])
}

impl TemplateParser {
    /// Fills the template in, asking `map` for the value of each variable,
    /// once per placeholder and in the order of the placeholders. The text is
    /// that of the parts, each filled in with what the lookup gave; every
    /// placeholder that could not be filled in is reported, in order.
    pub fn parse<F: Fn(&str) -> Option<String>>(&self, map: F) -> (r: (String, Vec<TemplateError>))
        requires
            self.wf(),
            forall|s: &str| map.requires((s,)),
        ensures
            exists|given: Seq<Option<String>>|
                #![trigger given_by(&map, self.tokens(), given)]
                given_by(&map, self.tokens(), given) && r.0@ == filled_all(self.tokens(), given)
                    && report_all(r.1@, troubles_all(self.tokens(), given)),
    {
        let mut text = String::new();
        let mut errs: Vec<TemplateError> = Vec::new();
        let ghost tokens = self.tokens();
        let ghost mut given: Seq<Option<String>> = Seq::empty();
        let mut i: usize = 0;
        proof {
            assert(tokens.take(0) =~= Seq::empty());
        }
        while i < self.0.len()
            invariant
                i <= self.0@.len(),
                self.wf(),
                tokens == self.tokens(),
                forall|s: &str| map.requires((s,)),
                given_by(&map, tokens.take(i as int), given),
                text@ == filled_all(tokens.take(i as int), given),
                report_all(errs@, troubles_all(tokens.take(i as int), given)),
            decreases self.0@.len() - i,
        {
            let (piece, err) = self.0[i].parse(&map);
            let ghost token = tokens[i as int];
            proof {
                assert(token == self.0@[i as int]@);
                let answer = choose|answer: Option<String>|
                    #![trigger answers(&map, token, answer)]
                    answers(&map, token, answer) && piece@ == token.filled(answer_view(answer)).0
                        && reports(err, token.filled(answer_view(answer)).1);
                let before = given;
                given = given.push(answer);
                assert(tokens.take(i + 1).drop_last() =~= tokens.take(i as int));
                assert(given.drop_last() =~= before);
                assert forall|k: int| 0 <= k < i + 1 implies answers(
                    &map,
                    #[trigger] tokens.take(i + 1)[k],
                    given[k],
                ) by {
                    if k < i {
                        assert(tokens.take(i as int)[k] == tokens.take(i + 1)[k]);
                    }
                }
            }
            text.append(piece.as_str());
            if let Some(e) = err {
                errs.push(e);
            }
            i += 1;
        }
        proof {
            assert(tokens.take(tokens.len() as int) =~= tokens);
            assert(given_by(&map, self.tokens(), given));
        }
        (text, errs)
    }
}

} // verus!
