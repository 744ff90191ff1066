//! Questions to the user: what is asked, and what the answers come to.
use crate::access::{access_word, Access};
use crate::address::{api_base_from, normalize_api_base};
use crate::config::{storage_word, TokenStorage};
use crate::site::{parse_publish_dir_input, publish_dir_input};
use crate::slug::{parse_slug_input, reserve_labels, reserved_with, slug_input};
use crate::text::{outcome, trim, trimmed};
use vstd::prelude::*;

verus! {

/// What is made of an answer.
#[derive(Debug, PartialEq, Eq)]
pub enum AnswerKind<T = String> {
    /// Any text.
    Anything,
    /// The base URL of the service.
    ApiBase,
    Username,
    Password,
    NewPassword,
    /// A project slug, which may not be reserved at a service whose own label is `api_label`.
    Slug { api_label: Option<T> },
    PublishDir,
}

impl DeepView for AnswerKind {
    type V = AnswerKind<Seq<char>>;

    open spec fn deep_view(&self) -> AnswerKind<Seq<char>> {
        match self {
            AnswerKind::Anything => AnswerKind::Anything,
            AnswerKind::ApiBase => AnswerKind::ApiBase,
            AnswerKind::Username => AnswerKind::Username,
            AnswerKind::Password => AnswerKind::Password,
            AnswerKind::NewPassword => AnswerKind::NewPassword,
            AnswerKind::Slug { api_label } => AnswerKind::Slug { api_label: api_label.deep_view() },
            AnswerKind::PublishDir => AnswerKind::PublishDir,
        }
    }
}

/// A question to the user.
#[derive(Debug, PartialEq, Eq)]
pub struct Question<T = String> {
    /// What is shown once, before the question is first put.
    pub guidance: Option<T>,
    pub label: T,
    /// What an empty answer stands for, where a question of this kind has such a thing.
    pub default_value: Option<T>,
    pub kind: AnswerKind<T>,
}

impl DeepView for Question {
    type V = Question<Seq<char>>;

    open spec fn deep_view(&self) -> Question<Seq<char>> {
        Question {
            guidance: self.guidance.deep_view(),
            label: self.label@,
            default_value: self.default_value.deep_view(),
            kind: self.kind.deep_view(),
        }
    }
}

/// What a line of input comes to as an answer.
#[derive(Debug, PartialEq, Eq)]
pub enum Verdict<T = String> {
    /// It is an answer.
    Accepted(T),
    /// The message is shown, and the question put again.
    Retry(T),
    /// The command fails.
    Failed(T),
}

impl DeepView for Verdict {
    type V = Verdict<Seq<char>>;

    open spec fn deep_view(&self) -> Verdict<Seq<char>> {
        match self {
            Verdict::Accepted(text) => Verdict::Accepted(text@),
            Verdict::Retry(message) => Verdict::Retry(message@),
            Verdict::Failed(message) => Verdict::Failed(message@),
        }
    }
}

pub const USERNAME_REQUIRED: &'static str = "username is required";

pub const PASSWORD_REQUIRED: &'static str = "password is required";

pub const NEW_PASSWORD_EMPTY: &'static str = "new password cannot be empty";

/// Whether an empty answer stands for the default.
pub open spec fn has_default(kind: AnswerKind<Seq<char>>) -> bool {
    kind is Slug || kind is PublishDir
}

/// What is shown in front of the answer.
pub open spec fn prompt_label(label: Seq<char>, default_value: Option<Seq<char>>) -> Seq<char> {
    match default_value {
        Some(value) if value.len() > 0 => label + " ["@ + value + "]"@,
        _ => label,
    }
}

/// What is shown in front of the answer to a question.
pub open spec fn question_text(question: Question<Seq<char>>) -> Seq<char> {
    if has_default(question.kind) {
        prompt_label(question.label, question.default_value) + ": "@
    } else {
        question.label + ": "@
    }
}

/// A line as it was given, or the default where the line is empty.
pub open spec fn line_or_default(
    label: Seq<char>,
    default_value: Option<Seq<char>>,
    line: Seq<char>,
) -> Result<Seq<char>, Seq<char>> {
    if line.len() > 0 {
        Ok(line)
    } else {
        match default_value {
            Some(value) if value.len() > 0 => Ok(value),
            _ => Err(label + " is required"@),
        }
    }
}

/// A text as it is, unless it is blank.
pub open spec fn not_blank(value: Seq<char>, fault: Seq<char>) -> Result<Seq<char>, Seq<char>> {
    if trimmed(value).len() == 0 {
        Err(fault)
    } else {
        Ok(value)
    }
}

/// The user name that a text gives.
pub open spec fn username_input(value: Seq<char>) -> Result<Seq<char>, Seq<char>> {
    not_blank(trimmed(value), USERNAME_REQUIRED@)
}

/// What an answer of a kind comes to.
pub open spec fn answer_of(kind: AnswerKind<Seq<char>>, value: Seq<char>) -> Result<
    Seq<char>,
    Seq<char>,
> {
    match kind {
        AnswerKind::Anything => Ok(value),
        AnswerKind::ApiBase => api_base_from(value),
        AnswerKind::Username => username_input(value),
        AnswerKind::Password => not_blank(value, PASSWORD_REQUIRED@),
        AnswerKind::NewPassword => not_blank(value, NEW_PASSWORD_EMPTY@),
        AnswerKind::Slug { api_label } => slug_input(value, reserved_with(api_label)),
        AnswerKind::PublishDir => publish_dir_input(value),
    }
}

/// What a line of input comes to. In an interactive session a wrong answer may be given again.
pub open spec fn verdict_of(question: Question<Seq<char>>, input: Seq<char>, interactive: bool) -> Verdict<
    Seq<char>,
> {
    let value = if has_default(question.kind) {
        line_or_default(question.label, question.default_value, trimmed(input))
    } else {
        Ok(trimmed(input))
    };
    match value {
        Err(message) => Verdict::Failed(message),
        Ok(value) => match answer_of(question.kind, value) {
            Ok(answer) => Verdict::Accepted(answer),
            Err(message) => if interactive {
                Verdict::Retry(message)
            } else {
                Verdict::Failed(message)
            },
        },
    }
}

impl Question {
    /// What is shown in front of the answer.
    pub fn text(&self) -> (text: String)
        ensures
            text@ == question_text(self.deep_view()),
    {
        let mut text = self.label.clone();
        let with_default = match &self.kind {
            AnswerKind::Slug { .. } => true,
            AnswerKind::PublishDir => true,
            _ => false,
        };
        if with_default {
            if let Some(value) = &self.default_value {
                if !value.as_str().is_empty() {
                    text.append(" [");
                    text.append(value.as_str());
                    text.append("]");
                }
            }
        }
        text.append(": ");
        text
    }

    /// The same question again.
    pub fn copy(&self) -> (copy: Question)
        ensures
            copy.deep_view() == self.deep_view(),
    {
        Question {
            guidance: self.guidance.clone(),
            label: self.label.clone(),
            default_value: self.default_value.clone(),
            kind: match &self.kind {
                AnswerKind::Anything => AnswerKind::Anything,
                AnswerKind::ApiBase => AnswerKind::ApiBase,
                AnswerKind::Username => AnswerKind::Username,
                AnswerKind::Password => AnswerKind::Password,
                AnswerKind::NewPassword => AnswerKind::NewPassword,
                AnswerKind::Slug { api_label } => AnswerKind::Slug { api_label: api_label.clone() },
                AnswerKind::PublishDir => AnswerKind::PublishDir,
            },
        }
    }
}

/// A line as it was given, or the default where the line is empty.
pub fn prompt_with_default(label: &str, default_value: Option<&String>, line: &str) -> (value: Result<
    String,
    String,
>)
    ensures
        outcome(value) == line_or_default(label@, default_value.deep_view(), line@),
{
    if !line.is_empty() {
        return Ok(line.to_string());
    }
    if let Some(value) = default_value {
        if !value.as_str().is_empty() {
            return Ok(value.clone());
        }
    }
    let mut message = label.to_string();
    message.append(" is required");
    Err(message)
}

/// A text as it is, unless it is blank.
pub fn require_text(value: &str, fault: &str) -> (checked: Result<String, String>)
    ensures
        outcome(checked) == not_blank(value@, fault@),
{
    if trim(value).is_empty() {
        Err(fault.to_string())
    } else {
        Ok(value.to_string())
    }
}

fn parse_answer(kind: &AnswerKind, value: &str) -> (answer: Result<String, String>)
    ensures
        outcome(answer) == answer_of(kind.deep_view(), value@),
{
    match kind {
        AnswerKind::Anything => Ok(value.to_string()),
        AnswerKind::ApiBase => normalize_api_base(value),
        AnswerKind::Username => require_text(trim(value), USERNAME_REQUIRED),
        AnswerKind::Password => require_text(value, PASSWORD_REQUIRED),
        AnswerKind::NewPassword => require_text(value, NEW_PASSWORD_EMPTY),
        AnswerKind::Slug { api_label } => {
            let reserved = reserve_labels(api_label.clone());
            parse_slug_input(value, reserved.as_slice())
        },
        AnswerKind::PublishDir => parse_publish_dir_input(value),
    }
}

/// What a line of input comes to as an answer.
pub fn judge_answer(question: &Question, input: &str, interactive: bool) -> (verdict: Verdict)
    ensures
        verdict.deep_view() == verdict_of(question.deep_view(), input@, interactive),
{
    let line = trim(input);
    let with_default = match &question.kind {
        AnswerKind::Slug { .. } => true,
        AnswerKind::PublishDir => true,
        _ => false,
    };
    let value = if with_default {
        match prompt_with_default(question.label.as_str(), question.default_value.as_ref(), line) {
            Ok(value) => value,
            Err(message) => return Verdict::Failed(message),
        }
    } else {
        line.to_string()
    };
    match parse_answer(&question.kind, value.as_str()) {
        Ok(answer) => Verdict::Accepted(answer),
        Err(message) => if interactive {
            Verdict::Retry(message)
        } else {
            Verdict::Failed(message)
        },
    }
}

/// Where no user is there to correct an answer, a wrong one fails the command.
pub proof fn law_no_second_chance_unattended(question: Question<Seq<char>>, input: Seq<char>)
    ensures
        !(verdict_of(question, input, false) is Retry),
{
}

/// What is accepted does not depend on whether a user is there, and an accepted answer is
/// accepted again as it is, if it is an answer to a question about a name or a place.
pub proof fn law_accepted_answers_are_stable(
    question: Question<Seq<char>>,
    input: Seq<char>,
    interactive: bool,
)
    ensures
        verdict_of(question, input, true) is Accepted <==> verdict_of(
            question,
            input,
            false,
        ) is Accepted,
        (question.kind is Slug || question.kind is PublishDir || question.kind is Username) ==> (
        verdict_of(question, input, interactive) matches Verdict::Accepted(answer) ==> verdict_of(
            question,
            answer,
            interactive,
        ) == Verdict::Accepted(answer)),
{
    let value = if has_default(question.kind) {
        line_or_default(question.label, question.default_value, trimmed(input))
    } else {
        Ok(trimmed(input))
    };
    if let Ok(value) = value {
        crate::text::law_trim_is_idempotent(value);
        crate::text::law_trim_is_idempotent(trimmed(value));
    }
}

/// A slug that was accepted is well formed and not reserved, and a directory is not blank.
pub proof fn law_accepted_answers_are_valid(
    question: Question<Seq<char>>,
    input: Seq<char>,
    interactive: bool,
)
    ensures
        verdict_of(question, input, interactive) matches Verdict::Accepted(answer) ==> {
            &&& question.kind matches AnswerKind::Slug { api_label } ==> crate::slug::is_slug(answer)
                && !reserved_with(api_label).contains(answer)
            &&& question.kind is PublishDir ==> answer.len() > 0 && trimmed(answer) == answer
            &&& question.kind is Username ==> answer.len() > 0 && trimmed(answer) == answer
            &&& question.kind is Password || question.kind is NewPassword ==> trimmed(answer).len()
                > 0
        },
{
    let value = if has_default(question.kind) {
        line_or_default(question.label, question.default_value, trimmed(input))
    } else {
        Ok(trimmed(input))
    };
    if let Ok(value) = value {
        crate::text::law_trim_is_idempotent(value);
    }
}

/// A key that was pressed while a choice is shown.
#[derive(Clone, Copy, Debug, PartialEq, Eq, Structural)]
pub enum Key {
    Up,
    Down,
    Enter,
    /// Control and C.
    Interrupt,
    Other,
}

/// What a key does to a choice.
#[derive(Clone, Copy, Debug, PartialEq, Eq, Structural)]
pub enum SelectStep {
    /// The choice is shown again, with another option marked.
    Show(usize),
    Chosen(usize),
    Interrupted,
    Unchanged,
}

/// An option of a choice.
#[derive(Clone, Copy, Debug)]
pub struct SelectOption {
    pub label: &'static str,
    pub description: &'static str,
}

pub const INTERRUPTED: &'static str = "interrupted";

/// The choices that commands put.
#[derive(Clone, Copy, Debug, PartialEq, Eq, Structural)]
pub enum Choice {
    Access,
    TokenStorage,
}

/// The option that a key moves the mark to, among `count` options: the mark goes round.
pub open spec fn moved(selected: int, count: int, key: Key) -> int {
    match key {
        Key::Up => (selected + count - 1) % count,
        Key::Down => (selected + 1) % count,
        _ => selected,
    }
}

/// The option that is marked after a series of keys.
pub open spec fn moved_by(selected: int, count: int, keys: Seq<Key>) -> int
    decreases keys.len(),
{
    if keys.len() == 0 {
        selected
    } else {
        moved(moved_by(selected, count, keys.drop_last()), count, keys.last())
    }
}

/// What a key does, among `count` options of which `selected` is marked.
pub fn select_step(selected: usize, count: usize, key: Key) -> (step: SelectStep)
    requires
        selected < count,
    ensures
        match key {
            Key::Up | Key::Down => step == SelectStep::Show(
                moved(selected as int, count as int, key) as usize,
            ) && 0 <= moved(selected as int, count as int, key) < count,
            Key::Enter => step == SelectStep::Chosen(selected),
            Key::Interrupt => step == SelectStep::Interrupted,
            Key::Other => step == SelectStep::Unchanged,
        },
{
    match key {
        Key::Up => {
            if selected == 0 {
                assert((count - 1) % (count as int) == count - 1) by (nonlinear_arith)
                    requires
                        count > 0,
                ;
                SelectStep::Show(count - 1)
            } else {
                assert((selected + count - 1) % (count as int) == selected - 1) by (nonlinear_arith)
                    requires
                        0 < selected < count,
                ;
                SelectStep::Show(selected - 1)
            }
        },
        Key::Down => SelectStep::Show((selected + 1) % count),
        Key::Enter => SelectStep::Chosen(selected),
        Key::Interrupt => SelectStep::Interrupted,
        Key::Other => SelectStep::Unchanged,
    }
}

/// The title of a choice.
pub open spec fn choice_title(choice: Choice) -> Seq<char> {
    match choice {
        Choice::Access => "Access"@,
        Choice::TokenStorage => "Token storage"@,
    }
}

/// The labels of a choice's options.
pub open spec fn choice_labels(choice: Choice) -> Seq<Seq<char>> {
    match choice {
        Choice::Access => seq!["public"@, "basic"@, "link"@],
        Choice::TokenStorage => seq!["file"@, "keychain"@],
    }
}

/// The descriptions of a choice's options.
pub open spec fn choice_descriptions(choice: Choice) -> Seq<Seq<char>> {
    match choice {
        Choice::Access => seq![
            "Published at https://<slug>.<publicSuffix>"@,
            "Published at the same URL with HTTP Basic authentication"@,
            "Published at the same URL with one-click share URL"@,
        ],
        Choice::TokenStorage => seq![
            "Store token in ~/.config/cfsurge/config.json"@,
            "Store token in macOS Keychain (fails on non-macOS)"@,
        ],
    }
}

/// The lines that show a choice, the marked option with an arrow before it.
pub open spec fn choice_line(choice: Choice, option: int, selected: int) -> Seq<char> {
    (if option == selected {
        ">"@
    } else {
        " "@
    }) + " "@ + choice_labels(choice)[option] + " - "@ + choice_descriptions(choice)[option]
}

impl Choice {
    /// The title of the choice.
    pub fn title(self) -> (title: &'static str)
        ensures
            title@ == choice_title(self),
    {
        match self {
            Choice::Access => "Access",
            Choice::TokenStorage => "Token storage",
        }
    }

    /// The options, in the order in which they are shown.
    pub fn options(self) -> (options: Vec<SelectOption>)
        ensures
            options@.len() == choice_labels(self).len(),
            choice_labels(self).len() == choice_descriptions(self).len(),
            forall|i: int|
                0 <= i < options@.len() ==> (#[trigger] options@[i]).label@ == choice_labels(self)[i]
                    && options@[i].description@ == choice_descriptions(self)[i],
    {
        let mut options: Vec<SelectOption> = Vec::new();
        match self {
            Choice::Access => {
                options.push(
                    SelectOption {
                        label: "public",
                        description: "Published at https://<slug>.<publicSuffix>",
                    },
                );
                options.push(
                    SelectOption {
                        label: "basic",
                        description: "Published at the same URL with HTTP Basic authentication",
                    },
                );
                options.push(
                    SelectOption {
                        label: "link",
                        description: "Published at the same URL with one-click share URL",
                    },
                );
            },
            Choice::TokenStorage => {
                options.push(
                    SelectOption {
                        label: "file",
                        description: "Store token in ~/.config/cfsurge/config.json",
                    },
                );
                options.push(
                    SelectOption {
                        label: "keychain",
                        description: "Store token in macOS Keychain (fails on non-macOS)",
                    },
                );
            },
        }
        options
    }

    /// The line above the options.
    pub fn heading(self) -> (heading: String)
        ensures
            heading@ == choice_title(self) + " (Use \u{2191}/\u{2193}, Enter to confirm)"@,
    {
        let mut heading = self.title().to_string();
        heading.append(" (Use \u{2191}/\u{2193}, Enter to confirm)");
        heading
    }

    /// The lines that show the options.
    pub fn lines(self, selected: usize) -> (lines: Vec<String>)
        ensures
            lines.deep_view() == Seq::new(
                choice_labels(self).len(),
                |i: int| choice_line(self, i, selected as int),
            ),
    {
        let options = self.options();
        let mut lines: Vec<String> = Vec::new();
        for i in 0..options.len()
            invariant
                options@.len() == choice_labels(self).len(),
                forall|j: int|
                    0 <= j < options@.len() ==> (#[trigger] options@[j]).label@ == choice_labels(
                        self,
                    )[j] && options@[j].description@ == choice_descriptions(self)[j],
                lines.deep_view() =~= Seq::new(
                    i as nat,
                    |j: int| choice_line(self, j, selected as int),
                ),
        {
            let mut line = (if i == selected {
                ">"
            } else {
                " "
            }).to_string();
            let option = options[i];
            line.append(" ");
            line.append(option.label);
            line.append(" - ");
            line.append(option.description);
            let ghost before = lines.deep_view();
            lines.push(line);
            assert(line@ == choice_line(self, i as int, selected as int));
            assert(lines.deep_view() =~= before.push(line@));
        }
        lines
    }

    /// The line that remains when an option was chosen.
    pub fn confirmation(self, chosen: usize) -> (line: String)
        requires
            chosen < choice_labels(self).len(),
        ensures
            line@ == choice_title(self) + ": "@ + choice_labels(self)[chosen as int],
    {
        let options = self.options();
        let mut line = self.title().to_string();
        line.append(": ");
        line.append(options[chosen].label);
        line
    }
}

/// Which option of the choice an access mode is.
pub open spec fn option_of_access(access: Access) -> int {
    match access {
        Access::Public => 0,
        Access::Basic => 1,
        Access::Link => 2,
    }
}

/// Which option of the choice a token storage is.
pub open spec fn option_of_storage(storage: TokenStorage) -> int {
    match storage {
        TokenStorage::File => 0,
        TokenStorage::Keychain => 1,
    }
}

/// The option to mark first.
pub fn access_option(access: Access) -> (option: usize)
    ensures
        option == option_of_access(access),
{
    match access {
        Access::Public => 0,
        Access::Basic => 1,
        Access::Link => 2,
    }
}

/// The option to mark first.
pub fn storage_option(storage: TokenStorage) -> (option: usize)
    ensures
        option == option_of_storage(storage),
{
    match storage {
        TokenStorage::File => 0,
        TokenStorage::Keychain => 1,
    }
}

/// The access mode that an option stands for.
pub open spec fn access_of_option(option: int) -> Option<Access> {
    if option == 0 {
        Some(Access::Public)
    } else if option == 1 {
        Some(Access::Basic)
    } else if option == 2 {
        Some(Access::Link)
    } else {
        None
    }
}

/// The token storage that an option stands for.
pub open spec fn storage_of_option(option: int) -> Option<TokenStorage> {
    if option == 0 {
        Some(TokenStorage::File)
    } else if option == 1 {
        Some(TokenStorage::Keychain)
    } else {
        None
    }
}

/// The access mode that an option stands for.
pub fn chosen_access(option: usize) -> (access: Option<Access>)
    ensures
        access == access_of_option(option as int),
{
    if option == 0 {
        Some(Access::Public)
    } else if option == 1 {
        Some(Access::Basic)
    } else if option == 2 {
        Some(Access::Link)
    } else {
        None
    }
}

/// The token storage that an option stands for.
pub fn chosen_storage(option: usize) -> (storage: Option<TokenStorage>)
    ensures
        storage == storage_of_option(option as int),
{
    if option == 0 {
        Some(TokenStorage::File)
    } else if option == 1 {
        Some(TokenStorage::Keychain)
    } else {
        None
    }
}

/// Every option of a choice stands for the value whose word is its label, and the option that
/// is marked first for the default.
pub proof fn law_options_stand_for_their_labels(access: Access, storage: TokenStorage)
    ensures
        access_of_option(option_of_access(access)) == Some(access),
        choice_labels(Choice::Access)[option_of_access(access)] == access_word(access),
        storage_of_option(option_of_storage(storage)) == Some(storage),
        choice_labels(Choice::TokenStorage)[option_of_storage(storage)] == storage_word(storage),
        choice_labels(Choice::Access).len() == 3,
        choice_labels(Choice::TokenStorage).len() == 2,
{
}

/// Whatever keys are pressed, the mark stays on one of the options.
pub proof fn law_mark_stays_on_an_option(selected: int, count: int, keys: Seq<Key>)
    requires
        0 <= selected < count,
    ensures
        0 <= moved_by(selected, count, keys) < count,
    decreases keys.len(),
{
    if keys.len() > 0 {
        law_mark_stays_on_an_option(selected, count, keys.drop_last());
    }
}

/// Moving the mark up and then down, or down and then up, brings it back.
pub proof fn law_up_and_down_undo_each_other(selected: int, count: int)
    requires
        0 <= selected < count,
    ensures
        moved(moved(selected, count, Key::Up), count, Key::Down) == selected,
        moved(moved(selected, count, Key::Down), count, Key::Up) == selected,
{
    if selected == 0 {
        assert((count - 1) % count == count - 1) by (nonlinear_arith)
            requires
                count > 0,
        ;
        assert(count % count == 0) by (nonlinear_arith)
            requires
                count > 0,
        ;
    } else {
        assert((selected + count - 1) % count == selected - 1) by (nonlinear_arith)
            requires
                0 < selected < count,
        ;
        assert(selected % count == selected) by (nonlinear_arith)
            requires
                0 <= selected < count,
        ;
    }
    if selected + 1 == count {
        assert(count % count == 0) by (nonlinear_arith)
            requires
                count > 0,
        ;
        assert((count - 1) % count == count - 1) by (nonlinear_arith)
            requires
                count > 0,
        ;
    } else {
        assert((selected + 1) % count == selected + 1) by (nonlinear_arith)
            requires
                0 <= selected + 1 < count,
        ;
        assert((selected + count) % count == selected) by (nonlinear_arith)
            requires
                0 <= selected < count,
        ;
    }
}

/// A question shows its label, and behind it in brackets what an empty answer stands for, where
/// a question of its kind has such a thing.
pub proof fn law_question_shows_its_default(question: Question<Seq<char>>, value: Seq<char>)
    ensures
        (question.kind is Slug || question.kind is PublishDir) && question.default_value == Some(
            value,
        ) && value.len() > 0 ==> question_text(question) == question.label + " ["@ + value + "]"@
            + ": "@,
        question.default_value is None ==> question_text(question) == question.label + ": "@,
        !(question.kind is Slug) && !(question.kind is PublishDir) ==> question_text(question)
            == question.label + ": "@,
{
}

/// What is answered is taken without its margins, whatever is asked for. A blank user name or
/// password is no answer.
pub proof fn law_answer_is_what_was_typed(
    question: Question<Seq<char>>,
    input: Seq<char>,
    interactive: bool,
)
    ensures
        ({
            let verdict = verdict_of(question, input, interactive);
            let typed = trimmed(input);
            let refused = |message: Seq<char>|
                if interactive {
                    Verdict::Retry(message)
                } else {
                    Verdict::Failed(message)
                };
            &&& question.kind is Anything ==> verdict == Verdict::Accepted(typed)
            &&& typed.len() > 0 && (question.kind is Username || question.kind is Password
                || question.kind is NewPassword || question.kind is PublishDir) ==> verdict
                == Verdict::Accepted(typed)
            &&& typed.len() == 0 && question.kind is Username ==> verdict == refused(
                "username is required"@,
            )
            &&& typed.len() == 0 && question.kind is Password ==> verdict == refused(
                "password is required"@,
            )
            &&& typed.len() == 0 && question.kind is NewPassword ==> verdict == refused(
                "new password cannot be empty"@,
            )
            &&& question.kind is ApiBase ==> verdict == match api_base_from(typed) {
                Ok(base) => Verdict::Accepted(base),
                Err(message) => refused(message),
            }
            &&& question.kind matches AnswerKind::Slug { api_label } ==> (typed.len() > 0 ==> verdict
                == match crate::slug::slug_verdict(typed, reserved_with(api_label)) {
                Ok(()) => Verdict::Accepted(typed),
                Err(message) => refused(message),
            })
        }),
{
    crate::text::law_trim_is_idempotent(input);
}

/// An empty answer stands for the default where there is one, and fails the command where a
/// question of its kind has none.
pub proof fn law_empty_answer_stands_for_the_default(
    question: Question<Seq<char>>,
    input: Seq<char>,
    interactive: bool,
)
    requires
        trimmed(input).len() == 0,
        question.kind is Slug || question.kind is PublishDir,
    ensures
        question.default_value matches Some(value) ==> (value.len() > 0 && trimmed(value) == value
            ==> verdict_of(question, input, interactive) == verdict_of(
            question,
            value,
            interactive,
        )),
        question.default_value is None ==> verdict_of(question, input, interactive)
            == Verdict::<Seq<char>>::Failed(question.label + " is required"@),
{
}

/// Down marks the option below, and the first one from the last; up marks the option above, and
/// the last one from the first. Other keys leave the mark where it is.
pub proof fn law_arrow_keys_move_by_one(selected: int, count: int)
    requires
        0 <= selected < count,
    ensures
        selected + 1 < count ==> moved(selected, count, Key::Down) == selected + 1,
        selected + 1 == count ==> moved(selected, count, Key::Down) == 0,
        selected > 0 ==> moved(selected, count, Key::Up) == selected - 1,
        selected == 0 ==> moved(selected, count, Key::Up) == count - 1,
        moved(selected, count, Key::Enter) == selected,
        moved(selected, count, Key::Other) == selected,
{
    if selected + 1 < count {
        assert((selected + 1) % count == selected + 1) by (nonlinear_arith)
            requires
                0 <= selected + 1 < count,
        ;
    } else {
        assert(count % count == 0) by (nonlinear_arith)
            requires
                count > 0,
        ;
    }
    if selected > 0 {
        assert((selected + count - 1) % count == selected - 1) by (nonlinear_arith)
            requires
                0 < selected < count,
        ;
    } else {
        assert((count - 1) % count == count - 1) by (nonlinear_arith)
            requires
                count > 0,
        ;
    }
}

/// Every option is shown with its word and what it means, and the marked one, and no other, has
/// an arrow before it.
pub proof fn law_choices_are_shown_with_their_words(
    access: Access,
    storage: TokenStorage,
    selected: int,
)
    ensures
        choice_title(Choice::Access) == "Access"@,
        choice_title(Choice::TokenStorage) == "Token storage"@,
        ({
            let line = choice_line(Choice::Access, option_of_access(access), selected);
            let mark = if option_of_access(access) == selected {
                ">"@
            } else {
                " "@
            };
            line == mark + " "@ + access_word(access) + " - "@ + match access {
                Access::Public => "Published at https://<slug>.<publicSuffix>"@,
                Access::Basic => "Published at the same URL with HTTP Basic authentication"@,
                Access::Link => "Published at the same URL with one-click share URL"@,
            }
        }),
        ({
            let line = choice_line(Choice::TokenStorage, option_of_storage(storage), selected);
            let mark = if option_of_storage(storage) == selected {
                ">"@
            } else {
                " "@
            };
            line == mark + " "@ + storage_word(storage) + " - "@ + match storage {
                TokenStorage::File => "Store token in ~/.config/cfsurge/config.json"@,
                TokenStorage::Keychain => "Store token in macOS Keychain (fails on non-macOS)"@,
            }
        }),
        access_of_option(option_of_access(access)) == Some(access),
        storage_of_option(option_of_storage(storage)) == Some(storage),
{
}

/// An option that the choice does not have stands for nothing.
pub proof fn law_other_options_stand_for_nothing(option: int)
    ensures
        access_of_option(option) is Some <==> 0 <= option < 3,
        storage_of_option(option) is Some <==> 0 <= option < 2,
{
}

} // verus!
