//! The provided strategies: per-operation, thread-local retry policies.
//!
//! A strategy is one object consulted by every layer of a single push or pop:
//! the stack layer asks for head-update attempts, the array layer for
//! exchanger picks and for the number of exchangers in scope, the exchanger
//! for deposit, wait and claim attempts. Every budget is bounded by a small
//! constant, which is what makes every layer's retry loop terminate.

use crate::elimination_array;
use crate::exchanger;
use crate::exchanger::PopStrategy as ExchangerPopStrategy;
use crate::exchanger::PushStrategy as ExchangerPushStrategy;
use crate::treiber_stack;
use crate::treiber_stack::PopStrategy as TreiberPopStrategy;
use crate::treiber_stack::PushStrategy as TreiberPushStrategy;
use crate::PopStrategy as StackPopStrategy;
use crate::PushStrategy as StackPushStrategy;
use vstd::prelude::*;

verus! {

/// Represents the default strategy aiming for good average performance: small
/// constant budgets everywhere, flipping between stack and array.
pub struct BackAndForthStrategy {
    pub treiber_stack_push_cnt: usize,
    pub treiber_stack_pop_cnt: usize,
    pub elimination_array_push_cnt: usize,
    pub elimination_array_pop_cnt: usize,
    pub exchanger_start_push_cnt: usize,
    pub exchanger_retry_check_success_cnt: usize,
    pub exchanger_try_pop_cnt: usize,
}

impl BackAndForthStrategy {
    /// The state every fresh strategy starts from: all counters at zero.
    pub open spec fn initial() -> Self {
        BackAndForthStrategy {
            treiber_stack_push_cnt: 0,
            treiber_stack_pop_cnt: 0,
            elimination_array_push_cnt: 0,
            elimination_array_pop_cnt: 0,
            exchanger_start_push_cnt: 0,
            exchanger_retry_check_success_cnt: 0,
            exchanger_try_pop_cnt: 0,
        }
    }

    pub fn new() -> (r: Self)
        ensures
            r == BackAndForthStrategy::initial(),
    {
        BackAndForthStrategy {
            treiber_stack_push_cnt: 0,
            treiber_stack_pop_cnt: 0,
            elimination_array_push_cnt: 0,
            elimination_array_pop_cnt: 0,
            exchanger_start_push_cnt: 0,
            exchanger_retry_check_success_cnt: 0,
            exchanger_try_pop_cnt: 0,
        }
    }
}

impl StackPushStrategy for BackAndForthStrategy {
    open spec fn elim_push_decision(&self) -> bool {
        true
    }

    fn new() -> (r: Self)
        ensures
            r == BackAndForthStrategy::initial(),
    {
        BackAndForthStrategy::new()
    }

    fn use_elimination_array(&mut self) -> (r: bool)
    {
        true
    }
}

impl StackPopStrategy for BackAndForthStrategy {
    open spec fn elim_pop_decision(&self) -> bool {
        true
    }

    fn new() -> (r: Self)
        ensures
            r == BackAndForthStrategy::initial(),
    {
        BackAndForthStrategy::new()
    }

    fn use_elimination_array(&mut self) -> (r: bool)
    {
        true
    }
}

impl treiber_stack::PushStrategy for BackAndForthStrategy {
    open spec fn push_granted(&self) -> bool {
        self.treiber_stack_push_cnt == 0
    }

    open spec fn push_tries_left(&self) -> nat {
        if self.treiber_stack_push_cnt == 0 {
            1
        } else {
            0
        }
    }

    open spec fn after_try_push(&self) -> Self {
        if self.treiber_stack_push_cnt == 0 {
            BackAndForthStrategy { treiber_stack_push_cnt: 1, ..*self }
        } else {
            BackAndForthStrategy { treiber_stack_push_cnt: 0, ..*self }
        }
    }

    fn try_push(&mut self) -> (r: bool)
    {
        if self.treiber_stack_push_cnt >= 1 {
            self.treiber_stack_push_cnt = 0;
            return false;
        }
        self.treiber_stack_push_cnt += 1;
        true
    }
}

impl treiber_stack::PopStrategy for BackAndForthStrategy {
    open spec fn pop_granted(&self) -> bool {
        self.treiber_stack_pop_cnt == 0
    }

    open spec fn pop_tries_left(&self) -> nat {
        if self.treiber_stack_pop_cnt == 0 {
            1
        } else {
            0
        }
    }

    open spec fn after_try_pop(&self) -> Self {
        if self.treiber_stack_pop_cnt == 0 {
            BackAndForthStrategy { treiber_stack_pop_cnt: 1, ..*self }
        } else {
            BackAndForthStrategy { treiber_stack_pop_cnt: 0, ..*self }
        }
    }

    fn try_pop(&mut self) -> (r: bool)
    {
        if self.treiber_stack_pop_cnt >= 1 {
            self.treiber_stack_pop_cnt = 0;
            return false;
        }
        self.treiber_stack_pop_cnt += 1;
        true
    }
}

impl elimination_array::PushStrategy for BackAndForthStrategy {
    open spec fn array_push_granted(&self) -> bool {
        self.elimination_array_push_cnt == 0
    }

    open spec fn after_array_try_push(&self) -> Self {
        if self.elimination_array_push_cnt == 0 {
            BackAndForthStrategy { elimination_array_push_cnt: 1, ..*self }
        } else {
            BackAndForthStrategy { elimination_array_push_cnt: 0, ..*self }
        }
    }

    open spec fn push_width(&self, total: usize) -> usize {
        total
    }

    fn try_push(&mut self) -> (r: bool)
    {
        if self.elimination_array_push_cnt >= 1 {
            self.elimination_array_push_cnt = 0;
            return false;
        }
        self.elimination_array_push_cnt += 1;
        true
    }

    fn num_exchangers(&mut self, total: usize) -> (w: usize)
    {
        total
    }
}

impl elimination_array::PopStrategy for BackAndForthStrategy {
    open spec fn array_pop_granted(&self) -> bool {
        self.elimination_array_pop_cnt == 0
    }

    open spec fn after_array_try_pop(&self) -> Self {
        if self.elimination_array_pop_cnt == 0 {
            BackAndForthStrategy { elimination_array_pop_cnt: 1, ..*self }
        } else {
            BackAndForthStrategy { elimination_array_pop_cnt: 0, ..*self }
        }
    }

    open spec fn pop_width(&self, total: usize) -> usize {
        total
    }

    fn try_pop(&mut self) -> (r: bool)
    {
        if self.elimination_array_pop_cnt >= 1 {
            self.elimination_array_pop_cnt = 0;
            return false;
        }
        self.elimination_array_pop_cnt += 1;
        true
    }

    fn num_exchangers(&mut self, total: usize) -> (w: usize)
    {
        total
    }
}

impl exchanger::PushStrategy for BackAndForthStrategy {
    open spec fn start_granted(&self) -> bool {
        self.exchanger_start_push_cnt <= 10
    }

    open spec fn start_tries_left(&self) -> nat {
        if self.exchanger_start_push_cnt <= 10 {
            (11 - self.exchanger_start_push_cnt) as nat
        } else {
            0
        }
    }

    open spec fn check_tries_left(&self) -> nat {
        if self.exchanger_retry_check_success_cnt <= 10 {
            (11 - self.exchanger_retry_check_success_cnt) as nat
        } else {
            0
        }
    }

    open spec fn dispatch_push_tries_left(&self) -> nat {
        if self.elimination_array_push_cnt == 0 {
            1
        } else {
            0
        }
    }

    open spec fn after_try_start_exchange(&self) -> Self {
        if self.exchanger_start_push_cnt <= 10 {
            BackAndForthStrategy {
                exchanger_start_push_cnt: (self.exchanger_start_push_cnt + 1) as usize,
                ..*self
            }
        } else {
            BackAndForthStrategy { exchanger_start_push_cnt: 0, ..*self }
        }
    }

    open spec fn after_retry_check_exchanged(&self) -> Self {
        if self.exchanger_retry_check_success_cnt <= 10 {
            BackAndForthStrategy {
                exchanger_retry_check_success_cnt: (self.exchanger_retry_check_success_cnt
                    + 1) as usize,
                ..*self
            }
        } else {
            BackAndForthStrategy { exchanger_retry_check_success_cnt: 0, ..*self }
        }
    }

    fn try_start_exchange(&mut self) -> (r: bool) {
        if self.exchanger_start_push_cnt > 10 {
            self.exchanger_start_push_cnt = 0;
            return false;
        }
        self.exchanger_start_push_cnt += 1;
        true
    }

    fn retry_check_exchanged(&mut self) -> (r: bool)
        ensures
            r == (old(self).exchanger_retry_check_success_cnt <= 10),
    {
        if self.exchanger_retry_check_success_cnt > 10 {
            self.exchanger_retry_check_success_cnt = 0;
            return false;
        }
        self.exchanger_retry_check_success_cnt += 1;
        true
    }
}

impl exchanger::PopStrategy for BackAndForthStrategy {
    open spec fn exchange_granted(&self) -> bool {
        self.exchanger_try_pop_cnt <= 10
    }

    open spec fn exchange_tries_left(&self) -> nat {
        if self.exchanger_try_pop_cnt <= 10 {
            (11 - self.exchanger_try_pop_cnt) as nat
        } else {
            0
        }
    }

    open spec fn dispatch_pop_tries_left(&self) -> nat {
        if self.elimination_array_pop_cnt == 0 {
            1
        } else {
            0
        }
    }

    open spec fn after_try_exchange(&self) -> Self {
        if self.exchanger_try_pop_cnt <= 10 {
            BackAndForthStrategy {
                exchanger_try_pop_cnt: (self.exchanger_try_pop_cnt + 1) as usize,
                ..*self
            }
        } else {
            BackAndForthStrategy { exchanger_try_pop_cnt: 0, ..*self }
        }
    }

    open spec fn after_on_contention(&self) -> Self {
        *self
    }

    open spec fn after_on_no_contention(&self) -> Self {
        *self
    }

    fn try_exchange(&mut self) -> (r: bool) {
        if self.exchanger_try_pop_cnt > 10 {
            self.exchanger_try_pop_cnt = 0;
            return false;
        }
        self.exchanger_try_pop_cnt += 1;
        true
    }

    fn on_contention(&mut self) {
    }

    fn on_no_contention(&mut self) {
    }
}

/// Every retry budget of the back-and-forth strategy is bounded by a small
/// constant, in every state: no hook can answer yes more often than that in a
/// row.
pub proof fn back_and_forth_budgets_bounded(s: BackAndForthStrategy)
    ensures
        s.push_tries_left() <= 1,
        s.pop_tries_left() <= 1,
        s.start_tries_left() <= 11,
        s.check_tries_left() <= 11,
        s.exchange_tries_left() <= 11,
        s.dispatch_push_tries_left() <= 1,
        s.dispatch_pop_tries_left() <= 1,
{
}

/// Strategy to have the stack use the Treiber layer only and not elude to the
/// elimination array on contention.
pub struct NoEliminationStrategy {
    pub treiber_stack_push_cnt: usize,
    pub treiber_stack_pop_cnt: usize,
}

impl NoEliminationStrategy {
    /// The state every fresh strategy starts from: all counters at zero.
    pub open spec fn initial() -> Self {
        NoEliminationStrategy { treiber_stack_push_cnt: 0, treiber_stack_pop_cnt: 0 }
    }

    pub fn new() -> (r: Self)
        ensures
            r == NoEliminationStrategy::initial(),
    {
        NoEliminationStrategy { treiber_stack_push_cnt: 0, treiber_stack_pop_cnt: 0 }
    }
}

impl StackPushStrategy for NoEliminationStrategy {
    open spec fn elim_push_decision(&self) -> bool {
        false
    }

    fn new() -> (r: Self)
        ensures
            r == NoEliminationStrategy::initial(),
    {
        NoEliminationStrategy::new()
    }

    fn use_elimination_array(&mut self) -> (r: bool) {
        false
    }
}

impl StackPopStrategy for NoEliminationStrategy {
    open spec fn elim_pop_decision(&self) -> bool {
        false
    }

    fn new() -> (r: Self)
        ensures
            r == NoEliminationStrategy::initial(),
    {
        NoEliminationStrategy::new()
    }

    fn use_elimination_array(&mut self) -> (r: bool) {
        false
    }
}

impl treiber_stack::PushStrategy for NoEliminationStrategy {
    open spec fn push_granted(&self) -> bool {
        self.treiber_stack_push_cnt == 0
    }

    open spec fn push_tries_left(&self) -> nat {
        if self.treiber_stack_push_cnt == 0 {
            1
        } else {
            0
        }
    }

    open spec fn after_try_push(&self) -> Self {
        if self.treiber_stack_push_cnt == 0 {
            NoEliminationStrategy { treiber_stack_push_cnt: 1, ..*self }
        } else {
            NoEliminationStrategy { treiber_stack_push_cnt: 0, ..*self }
        }
    }

    fn try_push(&mut self) -> (r: bool) {
        if self.treiber_stack_push_cnt >= 1 {
            self.treiber_stack_push_cnt = 0;
            return false;
        }
        self.treiber_stack_push_cnt += 1;
        true
    }
}

impl treiber_stack::PopStrategy for NoEliminationStrategy {
    open spec fn pop_granted(&self) -> bool {
        self.treiber_stack_pop_cnt == 0
    }

    open spec fn pop_tries_left(&self) -> nat {
        if self.treiber_stack_pop_cnt == 0 {
            1
        } else {
            0
        }
    }

    open spec fn after_try_pop(&self) -> Self {
        if self.treiber_stack_pop_cnt == 0 {
            NoEliminationStrategy { treiber_stack_pop_cnt: 1, ..*self }
        } else {
            NoEliminationStrategy { treiber_stack_pop_cnt: 0, ..*self }
        }
    }

    fn try_pop(&mut self) -> (r: bool) {
        if self.treiber_stack_pop_cnt >= 1 {
            self.treiber_stack_pop_cnt = 0;
            return false;
        }
        self.treiber_stack_pop_cnt += 1;
        true
    }
}

impl elimination_array::PushStrategy for NoEliminationStrategy {
    open spec fn array_push_granted(&self) -> bool {
        false
    }

    open spec fn after_array_try_push(&self) -> Self {
        *self
    }

    open spec fn push_width(&self, total: usize) -> usize {
        total
    }

    fn try_push(&mut self) -> (r: bool) {
        false
    }

    fn num_exchangers(&mut self, total: usize) -> (w: usize) {
        total
    }
}

impl elimination_array::PopStrategy for NoEliminationStrategy {
    open spec fn array_pop_granted(&self) -> bool {
        false
    }

    open spec fn after_array_try_pop(&self) -> Self {
        *self
    }

    open spec fn pop_width(&self, total: usize) -> usize {
        total
    }

    fn try_pop(&mut self) -> (r: bool) {
        false
    }

    fn num_exchangers(&mut self, total: usize) -> (w: usize) {
        total
    }
}

impl exchanger::PushStrategy for NoEliminationStrategy {
    open spec fn start_granted(&self) -> bool {
        false
    }

    open spec fn start_tries_left(&self) -> nat {
        0
    }

    open spec fn check_tries_left(&self) -> nat {
        0
    }

    open spec fn dispatch_push_tries_left(&self) -> nat {
        0
    }

    open spec fn after_try_start_exchange(&self) -> Self {
        *self
    }

    open spec fn after_retry_check_exchanged(&self) -> Self {
        *self
    }

    fn try_start_exchange(&mut self) -> (r: bool)
        ensures
            !r,
    {
        false
    }

    fn retry_check_exchanged(&mut self) -> (r: bool)
        ensures
            !r,
    {
        false
    }
}

impl exchanger::PopStrategy for NoEliminationStrategy {
    open spec fn exchange_granted(&self) -> bool {
        false
    }

    open spec fn exchange_tries_left(&self) -> nat {
        0
    }

    open spec fn dispatch_pop_tries_left(&self) -> nat {
        0
    }

    open spec fn after_try_exchange(&self) -> Self {
        *self
    }

    open spec fn after_on_contention(&self) -> Self {
        *self
    }

    open spec fn after_on_no_contention(&self) -> Self {
        *self
    }

    fn try_exchange(&mut self) -> (r: bool) {
        false
    }

    fn on_contention(&mut self) {
    }

    fn on_no_contention(&mut self) {
    }
}

/// With elimination disabled only the stack-layer budgets remain, and they
/// are bounded by one grant in a row.
pub proof fn no_elimination_budgets_bounded(s: NoEliminationStrategy)
    ensures
        s.push_tries_left() <= 1,
        s.pop_tries_left() <= 1,
        s.start_tries_left() == 0,
        s.check_tries_left() == 0,
        s.exchange_tries_left() == 0,
        s.dispatch_push_tries_left() == 0,
        s.dispatch_pop_tries_left() == 0,
{
}

/// The ceiling of the congestion exponent of [`ExpRetryStrategy`].
pub const MAX_RETRY_EXPONENT: u8 = 5;

/// The congestion exponent clamped to its declared ceiling.
pub open spec fn capped(e: u8) -> u8 {
    if e > MAX_RETRY_EXPONENT {
        MAX_RETRY_EXPONENT
    } else {
        e
    }
}

/// The congestion exponent raised by one, clamped to its ceiling.
pub open spec fn bumped(e: u8) -> u8 {
    if e >= MAX_RETRY_EXPONENT {
        MAX_RETRY_EXPONENT
    } else {
        (e + 1) as u8
    }
}

/// The congestion exponent lowered by two, saturating at zero.
pub open spec fn lowered(e: u8) -> u8 {
    if e >= 2 {
        (e - 2) as u8
    } else {
        0
    }
}

/// The array-layer retry budget at exponent `e`: two picks at first, doubled
/// for every congestion level, up to sixty-four.
pub open spec fn exp_bound(e: u8) -> usize {
    if e == 0 {
        2
    } else if e == 1 {
        4
    } else if e == 2 {
        8
    } else if e == 3 {
        16
    } else if e == 4 {
        32
    } else {
        64
    }
}

/// The exchanger scope at exponent `e`: one exchanger at first, doubled for
/// every congestion level, up to thirty-two.
pub open spec fn width_bound(e: u8) -> usize {
    if e == 0 {
        1
    } else if e == 1 {
        2
    } else if e == 2 {
        4
    } else if e == 3 {
        8
    } else if e == 4 {
        16
    } else {
        32
    }
}

/// How many rounds a pusher waits for a partner at exponent `e`.
pub open spec fn wait_bound(e: u8) -> usize {
    (10 * capped(e)) as usize
}

fn bump_exponent(e: u8) -> (r: u8)
    ensures
        r == bumped(e),
{
    if e >= MAX_RETRY_EXPONENT {
        MAX_RETRY_EXPONENT
    } else {
        e + 1
    }
}

fn lower_exponent(e: u8) -> (r: u8)
    ensures
        r == lowered(e),
{
    if e >= 2 {
        e - 2
    } else {
        0
    }
}

fn exp_bound_of(e: u8) -> (r: usize)
    ensures
        r == exp_bound(e),
{
    if e == 0 {
        2
    } else if e == 1 {
        4
    } else if e == 2 {
        8
    } else if e == 3 {
        16
    } else if e == 4 {
        32
    } else {
        64
    }
}

fn width_bound_of(e: u8) -> (r: usize)
    ensures
        r == width_bound(e),
{
    if e == 0 {
        1
    } else if e == 1 {
        2
    } else if e == 2 {
        4
    } else if e == 3 {
        8
    } else if e == 4 {
        16
    } else {
        32
    }
}

/// Relies on std::hint::spin_loop: a scheduling hint with no effect on data.
#[verifier::external_body]
fn spin_hint() {
    std::hint::spin_loop()
}

/// Strategy retrying failed operations with exponential back-off in both
/// space and time.
///
/// Back-off in space: at first try a subset of all elimination array
/// exchangers, exponentially increasing on congestion.
///
/// Back-off in time: retry the elimination array on congestion and the
/// Treiber stack on disappearing of congestion.
pub struct ExpRetryStrategy {
    pub retry_exponent: u8,
    pub treiber_stack_push_cnt: usize,
    pub treiber_stack_pop_cnt: usize,
    pub elimination_array_push_cnt: usize,
    pub elimination_array_pop_cnt: usize,
    pub exchanger_try_start_exchange_cnt: usize,
    pub exchanger_retry_check_exchanged_cnt: usize,
    pub exchanger_try_pop_exchange_cnt: usize,
}

impl ExpRetryStrategy {
    /// The state every fresh strategy starts from: no congestion seen, all
    /// counters at zero.
    pub open spec fn initial() -> Self {
        ExpRetryStrategy {
            retry_exponent: 0,
            treiber_stack_push_cnt: 0,
            treiber_stack_pop_cnt: 0,
            elimination_array_push_cnt: 0,
            elimination_array_pop_cnt: 0,
            exchanger_try_start_exchange_cnt: 0,
            exchanger_retry_check_exchanged_cnt: 0,
            exchanger_try_pop_exchange_cnt: 0,
        }
    }

    pub fn new() -> (r: Self)
        ensures
            r == ExpRetryStrategy::initial(),
    {
        ExpRetryStrategy {
            retry_exponent: 0,
            treiber_stack_push_cnt: 0,
            treiber_stack_pop_cnt: 0,
            elimination_array_push_cnt: 0,
            elimination_array_pop_cnt: 0,
            exchanger_try_start_exchange_cnt: 0,
            exchanger_retry_check_exchanged_cnt: 0,
            exchanger_try_pop_exchange_cnt: 0,
        }
    }
}

impl StackPushStrategy for ExpRetryStrategy {
    open spec fn elim_push_decision(&self) -> bool {
        true
    }

    fn new() -> (r: Self)
        ensures
            r == ExpRetryStrategy::initial(),
    {
        ExpRetryStrategy::new()
    }

    fn use_elimination_array(&mut self) -> (r: bool) {
        true
    }
}

impl StackPopStrategy for ExpRetryStrategy {
    open spec fn elim_pop_decision(&self) -> bool {
        true
    }

    fn new() -> (r: Self)
        ensures
            r == ExpRetryStrategy::initial(),
    {
        ExpRetryStrategy::new()
    }

    fn use_elimination_array(&mut self) -> (r: bool) {
        true
    }
}

impl treiber_stack::PushStrategy for ExpRetryStrategy {
    open spec fn push_granted(&self) -> bool {
        self.treiber_stack_push_cnt == 0
    }

    open spec fn push_tries_left(&self) -> nat {
        if self.treiber_stack_push_cnt == 0 {
            1
        } else {
            0
        }
    }

    open spec fn after_try_push(&self) -> Self {
        if self.treiber_stack_push_cnt == 0 {
            ExpRetryStrategy { treiber_stack_push_cnt: 1, ..*self }
        } else {
            ExpRetryStrategy {
                treiber_stack_push_cnt: 0,
                retry_exponent: bumped(self.retry_exponent),
                ..*self
            }
        }
    }

    // Try a push to the Treiber stack at most once. Failing on the Treiber
    // stack implies congestion, which is best resolved via the elimination
    // array; it raises the exponent.
    fn try_push(&mut self) -> (r: bool) {
        if self.treiber_stack_push_cnt >= 1 {
            self.retry_exponent = bump_exponent(self.retry_exponent);
            self.treiber_stack_push_cnt = 0;
            return false;
        }
        self.treiber_stack_push_cnt += 1;
        true
    }
}

impl treiber_stack::PopStrategy for ExpRetryStrategy {
    open spec fn pop_granted(&self) -> bool {
        self.treiber_stack_pop_cnt == 0
    }

    open spec fn pop_tries_left(&self) -> nat {
        if self.treiber_stack_pop_cnt == 0 {
            1
        } else {
            0
        }
    }

    open spec fn after_try_pop(&self) -> Self {
        if self.treiber_stack_pop_cnt == 0 {
            ExpRetryStrategy { treiber_stack_pop_cnt: 1, ..*self }
        } else {
            ExpRetryStrategy {
                treiber_stack_pop_cnt: 0,
                retry_exponent: bumped(self.retry_exponent),
                ..*self
            }
        }
    }

    // As for pushes: one try, and a miss raises the exponent.
    fn try_pop(&mut self) -> (r: bool) {
        if self.treiber_stack_pop_cnt >= 1 {
            self.retry_exponent = bump_exponent(self.retry_exponent);
            self.treiber_stack_pop_cnt = 0;
            return false;
        }
        self.treiber_stack_pop_cnt += 1;
        true
    }
}

impl elimination_array::PushStrategy for ExpRetryStrategy {
    open spec fn array_push_granted(&self) -> bool {
        self.elimination_array_push_cnt < exp_bound(self.retry_exponent)
    }

    open spec fn after_array_try_push(&self) -> Self {
        if self.elimination_array_push_cnt < exp_bound(self.retry_exponent) {
            ExpRetryStrategy {
                elimination_array_push_cnt: (self.elimination_array_push_cnt + 1) as usize,
                ..*self
            }
        } else {
            ExpRetryStrategy { elimination_array_push_cnt: 0, ..*self }
        }
    }

    open spec fn push_width(&self, total: usize) -> usize {
        if width_bound(self.retry_exponent) < total {
            width_bound(self.retry_exponent)
        } else {
            total
        }
    }

    // Try at least twice, doubled for each congestion level.
    fn try_push(&mut self) -> (r: bool) {
        let bound = exp_bound_of(self.retry_exponent);
        if self.elimination_array_push_cnt >= bound {
            self.elimination_array_push_cnt = 0;
            return false;
        }
        self.elimination_array_push_cnt += 1;
        true
    }

    fn num_exchangers(&mut self, total: usize) -> (w: usize) {
        let bound = width_bound_of(self.retry_exponent);
        if bound < total {
            bound
        } else {
            total
        }
    }
}

impl elimination_array::PopStrategy for ExpRetryStrategy {
    open spec fn array_pop_granted(&self) -> bool {
        self.elimination_array_pop_cnt < exp_bound(self.retry_exponent)
    }

    open spec fn after_array_try_pop(&self) -> Self {
        if self.elimination_array_pop_cnt < exp_bound(self.retry_exponent) {
            ExpRetryStrategy {
                elimination_array_pop_cnt: (self.elimination_array_pop_cnt + 1) as usize,
                ..*self
            }
        } else {
            ExpRetryStrategy { elimination_array_pop_cnt: 0, ..*self }
        }
    }

    open spec fn pop_width(&self, total: usize) -> usize {
        if width_bound(self.retry_exponent) < total {
            width_bound(self.retry_exponent)
        } else {
            total
        }
    }

    // Try at least twice, doubled for each congestion level.
    fn try_pop(&mut self) -> (r: bool) {
        let bound = exp_bound_of(self.retry_exponent);
        if self.elimination_array_pop_cnt >= bound {
            self.elimination_array_pop_cnt = 0;
            return false;
        }
        self.elimination_array_pop_cnt += 1;
        true
    }

    fn num_exchangers(&mut self, total: usize) -> (w: usize) {
        let bound = width_bound_of(self.retry_exponent);
        if bound < total {
            bound
        } else {
            total
        }
    }
}

impl exchanger::PushStrategy for ExpRetryStrategy {
    open spec fn start_granted(&self) -> bool {
        self.exchanger_try_start_exchange_cnt == 0
    }

    open spec fn start_tries_left(&self) -> nat {
        if self.exchanger_try_start_exchange_cnt == 0 {
            1
        } else {
            0
        }
    }

    open spec fn check_tries_left(&self) -> nat {
        if self.exchanger_retry_check_exchanged_cnt <= 50 {
            (50 - self.exchanger_retry_check_exchanged_cnt) as nat
        } else {
            0
        }
    }

    open spec fn dispatch_push_tries_left(&self) -> nat {
        if self.elimination_array_push_cnt <= 64 {
            (64 - self.elimination_array_push_cnt) as nat
        } else {
            0
        }
    }

    // Try to deposit on an exchanger at most once. Failure implies usage by a
    // different push operation: never retry the same exchanger, but raise the
    // exponent and try a different one.
    open spec fn after_try_start_exchange(&self) -> Self {
        if self.exchanger_try_start_exchange_cnt == 0 {
            ExpRetryStrategy { exchanger_try_start_exchange_cnt: 1, ..*self }
        } else {
            ExpRetryStrategy {
                exchanger_try_start_exchange_cnt: 0,
                retry_exponent: bumped(self.retry_exponent),
                ..*self
            }
        }
    }

    // Wait for a pop operation, spinning a little longer for each congestion
    // level; when no popper arrives in time, congestion is gone, so the
    // exponent drops.
    open spec fn after_retry_check_exchanged(&self) -> Self {
        if self.exchanger_retry_check_exchanged_cnt < wait_bound(self.retry_exponent) {
            ExpRetryStrategy {
                exchanger_retry_check_exchanged_cnt: (self.exchanger_retry_check_exchanged_cnt
                    + 1) as usize,
                ..*self
            }
        } else {
            ExpRetryStrategy {
                exchanger_retry_check_exchanged_cnt: 0,
                retry_exponent: lowered(self.retry_exponent),
                ..*self
            }
        }
    }

    fn try_start_exchange(&mut self) -> (r: bool)
        ensures
            r == (old(self).exchanger_try_start_exchange_cnt == 0),
    {
        if self.exchanger_try_start_exchange_cnt >= 1 {
            self.retry_exponent = bump_exponent(self.retry_exponent);
            self.exchanger_try_start_exchange_cnt = 0;
            return false;
        }
        self.exchanger_try_start_exchange_cnt += 1;
        true
    }

    fn retry_check_exchanged(&mut self) -> (r: bool)
        ensures
            r == (old(self).exchanger_retry_check_exchanged_cnt < wait_bound(
                old(self).retry_exponent,
            )),
    {
        let reps = self.retry_exponent;
        let mut i: u8 = 0;
        while i < reps
            invariant
                i <= reps,
            decreases reps - i,
        {
            spin_hint();
            i += 1;
        }
        let cap = if self.retry_exponent > MAX_RETRY_EXPONENT {
            MAX_RETRY_EXPONENT
        } else {
            self.retry_exponent
        };
        let bound: usize = 10 * (cap as usize);
        if self.exchanger_retry_check_exchanged_cnt >= bound {
            self.retry_exponent = lower_exponent(self.retry_exponent);
            self.exchanger_retry_check_exchanged_cnt = 0;
            return false;
        }
        self.exchanger_retry_check_exchanged_cnt += 1;
        true
    }
}

impl exchanger::PopStrategy for ExpRetryStrategy {
    open spec fn exchange_granted(&self) -> bool {
        self.exchanger_try_pop_exchange_cnt == 0
    }

    open spec fn exchange_tries_left(&self) -> nat {
        if self.exchanger_try_pop_exchange_cnt == 0 {
            1
        } else {
            0
        }
    }

    open spec fn dispatch_pop_tries_left(&self) -> nat {
        if self.elimination_array_pop_cnt <= 64 {
            (64 - self.elimination_array_pop_cnt) as nat
        } else {
            0
        }
    }

    open spec fn after_try_exchange(&self) -> Self {
        if self.exchanger_try_pop_exchange_cnt == 0 {
            ExpRetryStrategy { exchanger_try_pop_exchange_cnt: 1, ..*self }
        } else {
            ExpRetryStrategy { exchanger_try_pop_exchange_cnt: 0, ..*self }
        }
    }

    // Someone else holds the slot: congestion, so the exponent rises, clamped
    // to its ceiling.
    open spec fn after_on_contention(&self) -> Self {
        ExpRetryStrategy { retry_exponent: bumped(self.retry_exponent), ..*self }
    }

    // An empty slot: no opposing traffic, so the exponent drops.
    open spec fn after_on_no_contention(&self) -> Self {
        ExpRetryStrategy { retry_exponent: lowered(self.retry_exponent), ..*self }
    }

    // Failure on a pop claim implies that either there is no concurrent push
    // in progress on this exchanger or it was already matched: best to try a
    // different exchanger.
    fn try_exchange(&mut self) -> (r: bool) {
        if self.exchanger_try_pop_exchange_cnt >= 1 {
            self.exchanger_try_pop_exchange_cnt = 0;
            return false;
        }
        self.exchanger_try_pop_exchange_cnt += 1;
        true
    }

    fn on_contention(&mut self) {
        self.retry_exponent = bump_exponent(self.retry_exponent);
    }

    fn on_no_contention(&mut self) {
        self.retry_exponent = lower_exponent(self.retry_exponent);
    }
}

/// Every retry budget of the exponential strategy is bounded by a constant,
/// in every state: the stack layer and the exchanger grant one attempt in a
/// row, the wait for a partner at most fifty rounds, and the array dispatch
/// at most sixty-four picks.
pub proof fn exp_retry_budgets_bounded(s: ExpRetryStrategy)
    ensures
        s.push_tries_left() <= 1,
        s.pop_tries_left() <= 1,
        s.start_tries_left() <= 1,
        s.check_tries_left() <= 50,
        s.exchange_tries_left() <= 1,
        s.dispatch_push_tries_left() <= 64,
        s.dispatch_pop_tries_left() <= 64,
{
}


} // verus!
