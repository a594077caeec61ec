//! The create-agent wizard: selecting the agent file source, entering the
//! agent's profile, registering and claiming it, configuring its schedule
//! and starting balance, and following compilation and deployment.

use vstd::prelude::*;

use crate::agent_assets::{AgentSource, ValidationResult};

verus! {

/// Where the wizard stands.
#[derive(Debug, Clone, PartialEq, Eq, Structural)]
pub enum CreateStep {
    /// Select agent file source (embedded or custom directory).
    SelectAgentSource,
    /// Enter agent name and description together.
    EnterAgentInfo,
    /// Registering with the social network.
    RegisteringMoltbook,
    /// Waiting for claim verification.
    WaitingClaim,
    /// Review the agent's profile document.
    ReviewSoul,
    /// Configure schedule.
    ConfigureSchedule,
    /// Compiling.
    Compiling,
    /// Deploying.
    Deploying,
    /// Success.
    Success,
}

/// Which field is active in the agent info form.
#[derive(Debug, Clone, PartialEq, Eq, Structural)]
pub enum AgentInfoField {
    Name,
    Description,
    ApiKey,
}

/// Which field is active in the schedule and balance form.
#[derive(Debug, Clone, PartialEq, Eq, Structural)]
pub enum ScheduleField {
    Schedule,
    CustomMinutes,
    Balance,
}

/// One whole unit of the chain's currency in planck, its smallest unit:
/// twelve decimal places.
pub const UNIT_PLANCK: u128 = 1_000_000_000_000;

/// State of the create-agent wizard.
pub struct CreateScreen {
    pub step: CreateStep,
    /// Whether the embedded default agent files are used.
    pub use_embedded: bool,
    pub custom_dir_input: String,
    pub source_validation: Option<ValidationResult>,
    pub agent_name: String,
    pub agent_description: String,
    pub api_key_input: String,
    pub active_field: AgentInfoField,
    pub name_error: Option<String>,
    pub api_key_error: Option<String>,
    pub api_key_status: Option<String>,
    pub agent_id: Option<String>,
    pub moltbook_api_key: Option<String>,
    pub claim_url: Option<String>,
    pub verification_code: Option<String>,
    /// Blocks between scheduled runs; absent means never.
    pub schedule_option: Option<u32>,
    pub compiled_hex: Option<String>,
    pub agent_address: Option<String>,
    pub error: Option<String>,
    pub selected_schedule: usize,
    pub custom_minutes_input: String,
    pub balance_input: String,
    pub balance_error: Option<String>,
    pub schedule_field: ScheduleField,
    pub value_planck: u128,
}

/// Every field but the source selection holds its starting value.
pub open spec fn default_except_source(s: CreateScreen) -> bool {
    &&& s.step == CreateStep::SelectAgentSource
    &&& s.source_validation is None
    &&& s.agent_name@ =~= Seq::<char>::empty()
    &&& s.agent_description@ =~= Seq::<char>::empty()
    &&& s.api_key_input@ =~= Seq::<char>::empty()
    &&& s.active_field == AgentInfoField::Name
    &&& s.name_error is None
    &&& s.api_key_error is None
    &&& s.api_key_status is None
    &&& s.agent_id is None
    &&& s.moltbook_api_key is None
    &&& s.claim_url is None
    &&& s.verification_code is None
    &&& s.schedule_option == Some(600u32)
    &&& s.compiled_hex is None
    &&& s.agent_address is None
    &&& s.error is None
    &&& s.selected_schedule == 2
    &&& s.custom_minutes_input@ =~= Seq::<char>::empty()
    &&& s.balance_input@ =~= Seq::<char>::empty()
    &&& s.balance_error is None
    &&& s.schedule_field == ScheduleField::Schedule
    &&& s.value_planck == UNIT_PLANCK
}

/// The source selection is as it was.
pub open spec fn same_source(pre: CreateScreen, post: CreateScreen) -> bool {
    &&& post.use_embedded == pre.use_embedded
    &&& post.custom_dir_input == pre.custom_dir_input
    &&& post.source_validation == pre.source_validation
}

/// The agent info form is as it was.
pub open spec fn same_info(pre: CreateScreen, post: CreateScreen) -> bool {
    &&& post.agent_name == pre.agent_name
    &&& post.agent_description == pre.agent_description
    &&& post.api_key_input == pre.api_key_input
    &&& post.active_field == pre.active_field
    &&& post.name_error == pre.name_error
    &&& post.api_key_error == pre.api_key_error
    &&& post.api_key_status == pre.api_key_status
}

/// The registration results are as they were.
pub open spec fn same_registration(pre: CreateScreen, post: CreateScreen) -> bool {
    &&& post.agent_id == pre.agent_id
    &&& post.moltbook_api_key == pre.moltbook_api_key
    &&& post.claim_url == pre.claim_url
    &&& post.verification_code == pre.verification_code
}

/// The schedule and balance form is as it was.
pub open spec fn same_schedule(pre: CreateScreen, post: CreateScreen) -> bool {
    &&& post.schedule_option == pre.schedule_option
    &&& post.selected_schedule == pre.selected_schedule
    &&& post.custom_minutes_input == pre.custom_minutes_input
    &&& post.balance_input == pre.balance_input
    &&& post.balance_error == pre.balance_error
    &&& post.schedule_field == pre.schedule_field
    &&& post.value_planck == pre.value_planck
}

/// The compilation and deployment results are as they were.
pub open spec fn same_deploy(pre: CreateScreen, post: CreateScreen) -> bool {
    &&& post.compiled_hex == pre.compiled_hex
    &&& post.agent_address == pre.agent_address
}

pub open spec fn is_dec_digit(c: char) -> bool {
    '0' <= c && c <= '9'
}

pub open spec fn digit_val(c: char) -> int {
    c as int - '0' as int
}

/// A decimal numeral: digits with at most one point among them, and at
/// least one digit.
pub open spec fn valid_decimal(s: Seq<char>) -> bool {
    &&& s.len() > 0
    &&& forall|i: int| 0 <= i < s.len() ==> is_dec_digit(#[trigger] s[i]) || s[i] == '.'
    &&& forall|i: int, j: int|
        #![trigger s[i], s[j]]
        0 <= i < s.len() && 0 <= j < s.len() && s[i] == '.' && s[j] == '.' ==> i == j
    &&& exists|i: int| 0 <= i < s.len() && is_dec_digit(#[trigger] s[i])
}

/// The value of a digit string read left to right.
pub open spec fn digits_val(s: Seq<char>) -> nat
    decreases s.len(),
{
    if s.len() == 0 {
        0
    } else {
        (digits_val(s.drop_last()) * 10 + digit_val(s.last())) as nat
    }
}

/// Where the first point stands, or the length where there is none.
pub open spec fn first_dot(s: Seq<char>) -> int
    decreases s.len(),
{
    if s.len() == 0 {
        0
    } else if s[0] == '.' {
        0
    } else {
        1 + first_dot(s.drop_first())
    }
}

/// The digits before the point.
pub open spec fn int_digits(s: Seq<char>) -> Seq<char> {
    s.take(first_dot(s))
}

/// The digits after the point, where there is one.
pub open spec fn frac_digits(s: Seq<char>) -> Seq<char> {
    if first_dot(s) < s.len() {
        s.skip(first_dot(s) + 1)
    } else {
        Seq::empty()
    }
}

/// The fractional digits cut or zero-padded to exactly twelve places.
pub open spec fn frac12(s: Seq<char>) -> Seq<char> {
    let f = frac_digits(s);
    if f.len() >= 12 {
        f.take(12)
    } else {
        f + Seq::new((12 - f.len()) as nat, |i: int| '0')
    }
}

/// The numeral scaled to planck: its digits with the point removed and the
/// fraction stretched to twelve places.
pub open spec fn scaled_planck(s: Seq<char>) -> nat {
    digits_val(int_digits(s) + frac12(s))
}

/// What a balance input is worth in planck: the scaled numeral, saturated
/// at the largest representable value; anything that is not a decimal
/// numeral falls back to one unit.
pub open spec fn balance_planck_of(s: Seq<char>) -> u128 {
    if !valid_decimal(s) {
        UNIT_PLANCK
    } else if scaled_planck(s) > u128::MAX {
        u128::MAX
    } else {
        scaled_planck(s) as u128
    }
}

/// `first_dot` is wherever a scan says the first point stands.
proof fn lemma_first_dot_at(s: Seq<char>, d: int)
    requires
        0 <= d <= s.len(),
        forall|k: int| 0 <= k < d ==> s[k] != '.',
        d < s.len() ==> s[d] == '.',
    ensures
        first_dot(s) == if d < s.len() {
            d
        } else {
            s.len() as int
        },
    decreases s.len(),
{
    if s.len() > 0 {
        if s[0] == '.' {
            assert(d == 0);
        } else {
            let rest = s.drop_first();
            assert(forall|k: int| 0 <= k < d - 1 ==> rest[k] != '.');
            if d == 0 {
                assert(forall|k: int| 0 <= k < rest.len() ==> rest[k] == s[k + 1]);
                lemma_first_dot_at(rest, rest.len() as int);
            } else {
                lemma_first_dot_at(rest, d - 1);
            }
        }
    }
}

impl CreateScreen {
    pub fn new() -> (r: CreateScreen)
        ensures
            default_except_source(r),
            r.use_embedded,
            r.custom_dir_input@ =~= Seq::<char>::empty(),
    {
        CreateScreen {
            step: CreateStep::SelectAgentSource,
            use_embedded: true,
            custom_dir_input: String::new(),
            source_validation: None,
            agent_name: String::new(),
            agent_description: String::new(),
            api_key_input: String::new(),
            active_field: AgentInfoField::Name,
            name_error: None,
            api_key_error: None,
            api_key_status: None,
            agent_id: None,
            moltbook_api_key: None,
            claim_url: None,
            verification_code: None,
            schedule_option: Some(600),
            compiled_hex: None,
            agent_address: None,
            error: None,
            selected_schedule: 2,
            custom_minutes_input: String::new(),
            balance_input: String::new(),
            balance_error: None,
            schedule_field: ScheduleField::Schedule,
            value_planck: UNIT_PLANCK,
        }
    }

    /// A fresh wizard with the saved source selection applied.
    pub fn new_with_config(custom_agent_dir: Option<String>) -> (r: CreateScreen)
        ensures
            default_except_source(r),
            match custom_agent_dir {
                Some(dir) => !r.use_embedded && r.custom_dir_input == dir,
                None => r.use_embedded && r.custom_dir_input@ =~= Seq::<char>::empty(),
            },
    {
        let mut screen = CreateScreen::new();
        match custom_agent_dir {
            Some(dir) => {
                screen.use_embedded = false;
                screen.custom_dir_input = dir;
            },
            None => {},
        }
        screen
    }

    /// Start the wizard over, preserving the source selection.
    pub fn reset(&mut self)
        ensures
            default_except_source(*final(self)),
            final(self).use_embedded == old(self).use_embedded,
            final(self).custom_dir_input == old(self).custom_dir_input,
    {
        let use_embedded = self.use_embedded;
        let custom_dir = self.custom_dir_input.clone();
        *self = CreateScreen::new();
        self.use_embedded = use_embedded;
        self.custom_dir_input = custom_dir;
    }

    /// The agent source this screen currently selects.
    pub fn agent_source(&self) -> (r: AgentSource)
        ensures
            r == if self.use_embedded {
                AgentSource::Embedded
            } else {
                AgentSource::Custom(self.custom_dir_input)
            },
    {
        if self.use_embedded {
            AgentSource::Embedded
        } else {
            AgentSource::Custom(self.custom_dir_input.clone())
        }
    }

    /// The starting balance the form asks for, in planck.  An empty or
    /// malformed input falls back to one unit.
    pub fn parse_balance_to_planck(&self) -> (r: u128)
        ensures
            r == balance_planck_of(self.balance_input@),
    {
        let s = self.balance_input.as_str();
        let n = s.unicode_len();
        let ghost sv = self.balance_input@;
        // One scan: reject a stray character or a second point, find the
        // first point, and note whether any digit occurred at all.
        let mut dot: usize = n;
        let mut saw_digit = false;
        let mut i: usize = 0;
        while i < n
            invariant
                i <= n,
                n == sv.len(),
                s@ == sv,
                sv == self.balance_input@,
                dot <= n,
                dot < n ==> dot < i && sv[dot as int] == '.',
                forall|k: int| 0 <= k < i && k != dot ==> #[trigger] sv[k] != '.',
                forall|k: int| 0 <= k < i ==> is_dec_digit(#[trigger] sv[k]) || sv[k] == '.',
                saw_digit == exists|k: int| 0 <= k < i && is_dec_digit(#[trigger] sv[k]),
            decreases n - i,
        {
            let c = s.get_char(i);
            if c == '.' {
                if dot < n {
                    proof {
                        assert(sv[dot as int] == '.' && sv[i as int] == '.' && dot != i);
                        assert(!valid_decimal(sv));
                    }
                    return UNIT_PLANCK;
                }
                dot = i;
            } else if c >= '0' && c <= '9' {
                saw_digit = true;
            } else {
                proof {
                    assert(!(is_dec_digit(sv[i as int]) || sv[i as int] == '.'));
                    assert(!valid_decimal(sv));
                }
                return UNIT_PLANCK;
            }
            i = i + 1;
        }
        if !saw_digit {
            proof {
                assert(!valid_decimal(sv));
            }
            return UNIT_PLANCK;
        }
        proof {
            assert(valid_decimal(sv));
            if dot < n {
                lemma_first_dot_at(sv, dot as int);
            } else {
                lemma_first_dot_at(sv, n as int);
            }
        }
        // The digits to fold: the integer part, then the fraction stretched
        // to twelve places.
        let frac_start = if dot < n {
            dot + 1
        } else {
            n
        };
        let frac_len = n - frac_start;
        let frac_take = if frac_len > 12 {
            12
        } else {
            frac_len
        };
        let mut acc: u128 = 0;
        let mut sat = false;
        let ghost mut done: Seq<char> = Seq::empty();
        let mut k: usize = 0;
        while k < dot
            invariant
                k <= dot,
                dot <= n,
                n == sv.len(),
                s@ == sv,
                sv == self.balance_input@,
                forall|j: int| 0 <= j < dot ==> is_dec_digit(#[trigger] sv[j]),
                done =~= sv.take(k as int),
                if sat {
                    digits_val(done) > u128::MAX
                } else {
                    acc == digits_val(done)
                },
            decreases dot - k,
        {
            let c = s.get_char(k);
            fold_digit(&mut acc, &mut sat, c, Ghost(done));
            proof {
                done = done.push(sv[k as int]);
                assert(done =~= sv.take(k + 1));
            }
            k = k + 1;
        }
        let mut k2: usize = 0;
        while k2 < frac_take
            invariant
                k2 <= frac_take,
                frac_take <= frac_len,
                frac_start + frac_len == n,
                frac_take <= 12,
                n == sv.len(),
                s@ == sv,
                sv == self.balance_input@,
                dot <= n,
                frac_start == if dot < n {
                    dot + 1
                } else {
                    n as int
                },
                forall|j: int|
                    frac_start <= j < n ==> is_dec_digit(#[trigger] sv[j]),
                done =~= sv.take(dot as int) + sv.subrange(
                    frac_start as int,
                    frac_start + k2,
                ),
                if sat {
                    digits_val(done) > u128::MAX
                } else {
                    acc == digits_val(done)
                },
            decreases frac_take - k2,
        {
            let c = s.get_char(frac_start + k2);
            fold_digit(&mut acc, &mut sat, c, Ghost(done));
            proof {
                done = done.push(sv[frac_start + k2]);
                assert(done =~= sv.take(dot as int) + sv.subrange(
                    frac_start as int,
                    frac_start + k2 + 1,
                ));
            }
            k2 = k2 + 1;
        }
        let mut k3: usize = frac_take;
        while k3 < 12
            invariant
                frac_take <= k3 <= 12,
                n == sv.len(),
                sv == self.balance_input@,
                dot <= n,
                frac_start <= n,
                frac_start + frac_take <= n,
                done =~= sv.take(dot as int) + sv.subrange(
                    frac_start as int,
                    frac_start + frac_take as int,
                ) + Seq::new((k3 - frac_take) as nat, |i: int| '0'),
                if sat {
                    digits_val(done) > u128::MAX
                } else {
                    acc == digits_val(done)
                },
            decreases 12 - k3,
        {
            fold_digit(&mut acc, &mut sat, '0', Ghost(done));
            proof {
                done = done.push('0');
                assert(done =~= sv.take(dot as int) + sv.subrange(
                    frac_start as int,
                    frac_start + frac_take as int,
                ) + Seq::new((k3 + 1 - frac_take) as nat, |i: int| '0'));
            }
            k3 = k3 + 1;
        }
        proof {
            assert(int_digits(sv) =~= sv.take(dot as int));
            if dot < n {
                assert(frac_digits(sv) =~= sv.skip(dot + 1));
            } else {
                assert(frac_digits(sv) =~= Seq::<char>::empty());
            }
            if frac_len >= 12 {
                assert(frac12(sv) =~= sv.subrange(frac_start as int, frac_start + 12));
            } else {
                assert(frac_digits(sv) =~= sv.subrange(frac_start as int, n as int));
                assert(frac12(sv) =~= sv.subrange(frac_start as int, n as int) + Seq::new(
                    (12 - frac_len) as nat,
                    |i: int| '0',
                ));
            }
            assert(done =~= int_digits(sv) + frac12(sv));
        }
        if sat {
            u128::MAX
        } else {
            acc
        }
    }

    /// Record the verdict of validating the selected source.  Whether each
    /// agent file exists is filesystem work done by the caller; the verdict
    /// those answers classify into is cached here for the form to show.
    pub fn validate_source(&mut self, validation: ValidationResult)
        ensures
            final(self).source_validation == Some(validation),
            final(self).use_embedded == old(self).use_embedded,
            final(self).custom_dir_input == old(self).custom_dir_input,
            final(self).step == old(self).step,
            final(self).error == old(self).error,
            same_info(*old(self), *final(self)),
            same_registration(*old(self), *final(self)),
            same_schedule(*old(self), *final(self)),
            same_deploy(*old(self), *final(self)),
    {
        self.source_validation = Some(validation);
    }

    /// The agent was registered: keep its key and claim data and wait for
    /// the claim.
    pub fn handle_moltbook_registered(
        &mut self,
        api_key: String,
        claim_url: String,
        verification_code: String,
    )
        ensures
            final(self).moltbook_api_key == Some(api_key),
            final(self).claim_url == Some(claim_url),
            final(self).verification_code == Some(verification_code),
            final(self).step == CreateStep::WaitingClaim,
            final(self).agent_id == old(self).agent_id,
            final(self).error == old(self).error,
            same_source(*old(self), *final(self)),
            same_info(*old(self), *final(self)),
            same_schedule(*old(self), *final(self)),
            same_deploy(*old(self), *final(self)),
    {
        self.moltbook_api_key = Some(api_key);
        self.claim_url = Some(claim_url);
        self.verification_code = Some(verification_code);
        self.step = CreateStep::WaitingClaim;
    }

    /// The chosen name is taken: back to the info form, with the message on
    /// the name field; the description is preserved.
    pub fn handle_name_taken(&mut self, message: &str)
        ensures
            final(self).step == CreateStep::EnterAgentInfo,
            final(self).active_field == AgentInfoField::Name,
            match final(self).name_error {
                Some(m) => m@ == message@,
                None => false,
            },
            final(self).agent_name == old(self).agent_name,
            final(self).agent_description == old(self).agent_description,
            final(self).api_key_input == old(self).api_key_input,
            final(self).api_key_error == old(self).api_key_error,
            final(self).api_key_status == old(self).api_key_status,
            final(self).error == old(self).error,
            same_source(*old(self), *final(self)),
            same_registration(*old(self), *final(self)),
            same_schedule(*old(self), *final(self)),
            same_deploy(*old(self), *final(self)),
    {
        self.step = CreateStep::EnterAgentInfo;
        self.active_field = AgentInfoField::Name;
        self.name_error = Some(message.to_owned());
    }

    /// Registration failed: back to the info form with the message; name
    /// and description are preserved.
    pub fn handle_registration_failed(&mut self, message: &str)
        ensures
            final(self).step == CreateStep::EnterAgentInfo,
            match final(self).error {
                Some(m) => m@ == message@,
                None => false,
            },
            same_source(*old(self), *final(self)),
            same_info(*old(self), *final(self)),
            same_registration(*old(self), *final(self)),
            same_schedule(*old(self), *final(self)),
            same_deploy(*old(self), *final(self)),
    {
        self.step = CreateStep::EnterAgentInfo;
        self.error = Some(message.to_owned());
    }

    /// An existing API key checked out: keep it, take over the profile it
    /// names, and say so.
    pub fn handle_api_key_validated(
        &mut self,
        api_key: String,
        name: String,
        description: String,
        is_claimed: bool,
    )
        ensures
            final(self).moltbook_api_key == Some(api_key),
            final(self).agent_name == name,
            final(self).agent_description == description,
            final(self).api_key_error is None,
            match final(self).api_key_status {
                Some(m) => m@ == if is_claimed {
                    "Valid (already claimed)! Press Enter to continue."@
                } else {
                    "Valid! Press Enter to continue."@
                },
                None => false,
            },
            final(self).step == old(self).step,
            final(self).error == old(self).error,
            final(self).api_key_input == old(self).api_key_input,
            final(self).active_field == old(self).active_field,
            final(self).name_error == old(self).name_error,
            final(self).agent_id == old(self).agent_id,
            final(self).claim_url == old(self).claim_url,
            final(self).verification_code == old(self).verification_code,
            same_source(*old(self), *final(self)),
            same_schedule(*old(self), *final(self)),
            same_deploy(*old(self), *final(self)),
    {
        self.moltbook_api_key = Some(api_key);
        self.agent_name = name;
        self.agent_description = description;
        self.api_key_error = None;
        if is_claimed {
            self.api_key_status = Some(
                String::from_str("Valid (already claimed)! Press Enter to continue."),
            );
        } else {
            self.api_key_status = Some(String::from_str("Valid! Press Enter to continue."));
        }
    }

    /// The API key did not check out: show why and forget any earlier one.
    pub fn handle_api_key_invalid(&mut self, message: &str)
        ensures
            match final(self).api_key_error {
                Some(m) => m@ == message@,
                None => false,
            },
            final(self).api_key_status is None,
            final(self).moltbook_api_key is None,
            final(self).step == old(self).step,
            final(self).error == old(self).error,
            final(self).agent_name == old(self).agent_name,
            final(self).agent_description == old(self).agent_description,
            final(self).api_key_input == old(self).api_key_input,
            final(self).active_field == old(self).active_field,
            final(self).name_error == old(self).name_error,
            final(self).agent_id == old(self).agent_id,
            final(self).claim_url == old(self).claim_url,
            final(self).verification_code == old(self).verification_code,
            same_source(*old(self), *final(self)),
            same_schedule(*old(self), *final(self)),
            same_deploy(*old(self), *final(self)),
    {
        self.api_key_error = Some(message.to_owned());
        self.api_key_status = None;
        self.moltbook_api_key = None;
    }

    /// The agent was claimed and stored: keep its id and move on to the
    /// profile review.
    pub fn handle_moltbook_claimed(&mut self, agent_id: String)
        ensures
            final(self).agent_id == Some(agent_id),
            final(self).step == CreateStep::ReviewSoul,
            final(self).moltbook_api_key == old(self).moltbook_api_key,
            final(self).claim_url == old(self).claim_url,
            final(self).verification_code == old(self).verification_code,
            final(self).error == old(self).error,
            same_source(*old(self), *final(self)),
            same_info(*old(self), *final(self)),
            same_schedule(*old(self), *final(self)),
            same_deploy(*old(self), *final(self)),
    {
        self.agent_id = Some(agent_id);
        self.step = CreateStep::ReviewSoul;
    }

    /// Compilation finished: keep the compiled hex; deployment follows.
    pub fn handle_compile_done(&mut self, compiled_hex: String)
        ensures
            final(self).compiled_hex == Some(compiled_hex),
            final(self).step == CreateStep::Deploying,
            final(self).agent_address == old(self).agent_address,
            final(self).error == old(self).error,
            same_source(*old(self), *final(self)),
            same_info(*old(self), *final(self)),
            same_registration(*old(self), *final(self)),
            same_schedule(*old(self), *final(self)),
    {
        self.compiled_hex = Some(compiled_hex);
        self.step = CreateStep::Deploying;
    }

    /// Compilation failed: back to the schedule form with the message.
    pub fn handle_compile_failed(&mut self, error: &str)
        ensures
            match final(self).error {
                Some(m) => m@ == error@,
                None => false,
            },
            final(self).step == CreateStep::ConfigureSchedule,
            same_source(*old(self), *final(self)),
            same_info(*old(self), *final(self)),
            same_registration(*old(self), *final(self)),
            same_schedule(*old(self), *final(self)),
            same_deploy(*old(self), *final(self)),
    {
        self.error = Some(error.to_owned());
        self.step = CreateStep::ConfigureSchedule;
    }

    /// Deployment finished: keep the new on-chain address.
    pub fn handle_deploy_done(&mut self, agent_address: String)
        ensures
            final(self).agent_address == Some(agent_address),
            final(self).step == CreateStep::Success,
            final(self).compiled_hex == old(self).compiled_hex,
            final(self).error == old(self).error,
            same_source(*old(self), *final(self)),
            same_info(*old(self), *final(self)),
            same_registration(*old(self), *final(self)),
            same_schedule(*old(self), *final(self)),
    {
        self.agent_address = Some(agent_address);
        self.step = CreateStep::Success;
    }

    /// Deployment failed: show why, back on the compiling step.
    pub fn handle_deploy_failed(&mut self, error: &str)
        ensures
            match final(self).error {
                Some(m) => m@ == error@,
                None => false,
            },
            final(self).step == CreateStep::Compiling,
            same_source(*old(self), *final(self)),
            same_info(*old(self), *final(self)),
            same_registration(*old(self), *final(self)),
            same_schedule(*old(self), *final(self)),
            same_deploy(*old(self), *final(self)),
    {
        self.error = Some(error.to_owned());
        self.step = CreateStep::Compiling;
    }
}

/// One step of reading a digit string left to right: append `c` to the
/// value read so far, saturating once it can no longer be represented.
fn fold_digit(acc: &mut u128, sat: &mut bool, c: char, done: Ghost<Seq<char>>)
    requires
        is_dec_digit(c),
        if *old(sat) {
            digits_val(done@) > u128::MAX
        } else {
            *old(acc) == digits_val(done@)
        },
    ensures
        if *final(sat) {
            digits_val(done@.push(c)) > u128::MAX
        } else {
            *final(acc) == digits_val(done@.push(c))
        },
{
    proof {
        assert(done@.push(c).drop_last() =~= done@);
        assert(done@.push(c).last() == c);
    }
    let d = (c as u32 - 48) as u128;
    proof {
        assert(d == digit_val(c));
    }
    if *sat {
        proof {
            assert(digits_val(done@.push(c)) == digits_val(done@) * 10 + digit_val(c));
            assert(digits_val(done@) * 10 >= digits_val(done@)) by (nonlinear_arith);
        }
        return;
    }
    let limit = (u128::MAX - d) / 10;
    if *acc > limit {
        *sat = true;
        proof {
            let q = (u128::MAX - d) as int / 10;
            let r = (u128::MAX - d) as int % 10;
            assert(u128::MAX - d == 10 * q + r && 0 <= r < 10);
            assert(*acc >= q + 1);
            assert((*acc) * 10 >= (q + 1) * 10) by (nonlinear_arith)
                requires
                    *acc >= q + 1,
            ;
            assert((*acc) * 10 + d > u128::MAX);
            assert(digits_val(done@.push(c)) == digits_val(done@) * 10 + digit_val(c));
        }
    } else {
        proof {
            let q = (u128::MAX - d) as int / 10;
            let r = (u128::MAX - d) as int % 10;
            assert(u128::MAX - d == 10 * q + r && 0 <= r < 10);
            assert((*acc) * 10 <= q * 10) by (nonlinear_arith)
                requires
                    *acc <= q,
            ;
            assert((*acc) * 10 + d <= u128::MAX);
        }
        *acc = *acc * 10 + d;
        proof {
            assert(digits_val(done@.push(c)) == digits_val(done@) * 10 + digit_val(c));
        }
    }
}

} // verus!
