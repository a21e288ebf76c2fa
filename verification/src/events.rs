//! Events the program writes to its log for indexers: fixed byte layouts, each
//! written as one line `EVENT:` followed by the layout's bytes in base58.
use vstd::prelude::*;
use vstd::bytes::*;
use crate::le_bytes::{write_u16, write_u64};

verus! {

/// The kind of an event.
#[derive(Debug, Clone, Copy, PartialEq, Eq, Structural)]
pub enum EventType {
    BetPlaced,
    DiceRolled,
    PayoutClaimed,
    PlayerInitialized,
    DepositMade,
    WithdrawalMade,
    EpochStarted,
    EpochEnded,
    EmergencyAction,
    AuthorityChanged,
}

/// The byte that tags an event of a kind: 1 for a placed bet up to 10 for a change of authority.
pub open spec fn event_code(e: EventType) -> u8 {
    match e {
        EventType::BetPlaced => 1,
        EventType::DiceRolled => 2,
        EventType::PayoutClaimed => 3,
        EventType::PlayerInitialized => 4,
        EventType::DepositMade => 5,
        EventType::WithdrawalMade => 6,
        EventType::EpochStarted => 7,
        EventType::EpochEnded => 8,
        EventType::EmergencyAction => 9,
        EventType::AuthorityChanged => 10,
    }
}

impl EventType {
    /// The byte that tags an event of this kind.
    pub fn code(&self) -> (r: u8)
        ensures
            r == event_code(*self),
    {
        match self {
            EventType::BetPlaced => 1,
            EventType::DiceRolled => 2,
            EventType::PayoutClaimed => 3,
            EventType::PlayerInitialized => 4,
            EventType::DepositMade => 5,
            EventType::WithdrawalMade => 6,
            EventType::EpochStarted => 7,
            EventType::EpochEnded => 8,
            EventType::EmergencyAction => 9,
            EventType::AuthorityChanged => 10,
        }
    }
}

/// The base58 alphabet `bs58` writes with by default, Bitcoin's.
pub open spec fn bs58_alphabet() -> Seq<char> {
    "123456789ABCDEFGHJKLMNPQRSTUVWXYZabcdefghijkmnopqrstuvwxyz"@
}

/// The number a byte string stands for, most significant byte first.
pub open spec fn big_endian_value(bytes: Seq<u8>) -> nat
    decreases bytes.len(),
{
    if bytes.len() == 0 {
        0
    } else {
        big_endian_value(bytes.drop_last()) * 256 + bytes.last() as nat
    }
}

/// The number of zero bytes a byte string starts with.
pub open spec fn leading_zero_bytes(bytes: Seq<u8>) -> nat
    decreases bytes.len(),
{
    if bytes.len() == 0 || bytes[0] != 0 {
        0
    } else {
        1 + leading_zero_bytes(bytes.drop_first())
    }
}

/// The base58 digits of a number, most significant first, with no leading zero digit
/// (none at all for zero).
pub open spec fn base58_digits(n: nat) -> Seq<char>
    decreases n,
{
    if n == 0 {
        Seq::empty()
    } else {
        base58_digits(n / 58).push(bs58_alphabet()[(n % 58) as int])
    }
}

/// The base58 text of a byte string, as `bs58` writes it with its default alphabet:
/// a `1` for each leading zero byte, then the digits of the number the bytes stand for.
pub open spec fn bs58_text(bytes: Seq<u8>) -> Seq<char> {
    Seq::new(leading_zero_bytes(bytes), |i: int| '1') + base58_digits(big_endian_value(bytes))
}

/// `bs58::encode(..).into_string()`: the base58 text of the bytes with the default
/// alphabet. The text grows as needed, so the call cannot fail.
#[verifier::external_body]
fn bs58_encode(bytes: &[u8]) -> (r: String)
    ensures
        r@ == bs58_text(bytes@),
{
    bs58::encode(bytes).into_string()
}

/// The log line of an event's bytes: `EVENT:` and the bytes in base58.
pub open spec fn event_line(bytes: Seq<u8>) -> Seq<char> {
    seq!['E', 'V', 'E', 'N', 'T', ':'] + bs58_text(bytes)
}

/// The log line of an event's bytes.
pub fn event_log_line(bytes: &[u8]) -> (r: String)
    ensures
        r@ == event_line(bytes@),
{
    let encoded = bs58_encode(bytes);
    let mut line = String::from_str("EVENT:");
    proof {
        reveal_strlit("EVENT:");
    }
    line.append(encoded.as_str());
    line
}

/// Appends the bytes of `src` to `out`.
fn push_all(out: &mut Vec<u8>, src: &[u8])
    ensures
        final(out)@ == old(out)@ + src@,
{
    let mut i: usize = 0;
    while i < src.len()
        invariant
            0 <= i <= src@.len(),
            out@ == old(out)@ + src@.subrange(0, i as int),
        decreases src@.len() - i,
    {
        out.push(src[i]);
        i += 1;
        assert(out@ =~= old(out)@ + src@.subrange(0, i as int));
    }
    assert(src@.subrange(0, src@.len() as int) =~= src@);
}

/// The little-endian bytes of an `i64`, as two's complement.
pub open spec fn i64_le_bytes(v: i64) -> Seq<u8> {
    spec_u64_to_le_bytes(v as u64)
}

fn write_i64(v: i64) -> (r: [u8; 8])
    ensures
        r@ == i64_le_bytes(v),
{
    write_u64(v as u64)
}

/// The header every event starts with.
#[derive(Clone, Copy)]
pub struct EventHeader {
    /// The event's kind tag.
    pub event_type: u8,
    /// Unix timestamp.
    pub timestamp: [u8; 8],
    /// Current epoch.
    pub epoch: [u8; 8],
    /// Slot number.
    pub slot: [u8; 8],
}

/// `n` zero bytes.
pub open spec fn zeros(n: nat) -> Seq<u8> {
    Seq::new(n, |i: int| 0u8)
}

/// The bytes of the header of an event of a kind at a time, epoch and slot.
pub open spec fn header_for(kind: EventType, timestamp: i64, epoch: u64, slot: u64) -> Seq<u8> {
    seq![event_code(kind)] + i64_le_bytes(timestamp) + spec_u64_to_le_bytes(epoch) + spec_u64_to_le_bytes(slot)
}

/// The bytes of a header, field after field.
pub open spec fn header_bytes(h: EventHeader) -> Seq<u8> {
    seq![h.event_type] + h.timestamp@ + h.epoch@ + h.slot@
}

/// Whether a header is that of an event of a kind at a time, epoch and slot.
pub open spec fn is_header(h: EventHeader, kind: EventType, timestamp: i64, epoch: u64, slot: u64) -> bool {
    &&& h.event_type == event_code(kind)
    &&& h.timestamp@ == i64_le_bytes(timestamp)
    &&& h.epoch@ == spec_u64_to_le_bytes(epoch)
    &&& h.slot@ == spec_u64_to_le_bytes(slot)
}

impl EventHeader {
    /// A header for an event of a kind.
    pub fn new(kind: EventType, timestamp: i64, epoch: u64, slot: u64) -> (r: Self)
        ensures
            is_header(r, kind, timestamp, epoch, slot),
    {
        EventHeader {
            event_type: kind.code(),
            timestamp: write_i64(timestamp),
            epoch: write_u64(epoch),
            slot: write_u64(slot),
        }
    }

    /// The header's bytes.
    pub fn to_bytes(&self) -> (r: Vec<u8>)
        ensures
            r@ == header_bytes(*self),
    {
        let mut out: Vec<u8> = Vec::new();
        out.push(self.event_type);
        push_all(&mut out, &self.timestamp);
        push_all(&mut out, &self.epoch);
        push_all(&mut out, &self.slot);
        assert(out@ =~= header_bytes(*self));
        out
    }
}

/// A bet was placed.
#[derive(Clone, Copy)]
pub struct BetPlacedEvent {
    /// Header.
    pub header: EventHeader,
    /// Player key.
    pub player: [u8; 32],
    /// Bet kind (0..=63).
    pub bet_type: u8,
    /// Bet amount in base units.
    pub amount: [u8; 8],
    /// Index in the batch.
    pub batch_index: [u8; 2],
    /// Zero.
    pub _padding: [u8; 5],
}

/// The bytes of the event, field after field.
pub open spec fn bet_placed_event_bytes(e: BetPlacedEvent) -> Seq<u8> {
    header_bytes(e.header)
        + e.player@
        + seq![e.bet_type]
        + e.amount@
        + e.batch_index@
        + e._padding@
}

impl BetPlacedEvent {
    /// The event's bytes.
    pub fn to_bytes(&self) -> (r: Vec<u8>)
        ensures
            r@ == bet_placed_event_bytes(*self),
    {
        let mut out = self.header.to_bytes();
        push_all(&mut out, &self.player);
        out.push(self.bet_type);
        push_all(&mut out, &self.amount);
        push_all(&mut out, &self.batch_index);
        push_all(&mut out, &self._padding);
        assert(out@ =~= bet_placed_event_bytes(*self));
        out
    }
}

/// The dice were rolled.
#[derive(Clone, Copy)]
pub struct DiceRolledEvent {
    /// Header.
    pub header: EventHeader,
    /// First die (1..=6).
    pub die1: u8,
    /// Second die (1..=6).
    pub die2: u8,
    /// Their total.
    pub total: u8,
    /// Game phase after the roll.
    pub new_phase: u8,
    /// Point (0 on the come-out).
    pub point: u8,
    /// 1 on a seven-out.
    pub seven_out: u8,
    /// Zero.
    pub _padding: [u8; 2],
}

/// The bytes of the event, field after field.
pub open spec fn dice_rolled_event_bytes(e: DiceRolledEvent) -> Seq<u8> {
    header_bytes(e.header)
        + seq![e.die1]
        + seq![e.die2]
        + seq![e.total]
        + seq![e.new_phase]
        + seq![e.point]
        + seq![e.seven_out]
        + e._padding@
}

impl DiceRolledEvent {
    /// The event's bytes.
    pub fn to_bytes(&self) -> (r: Vec<u8>)
        ensures
            r@ == dice_rolled_event_bytes(*self),
    {
        let mut out = self.header.to_bytes();
        out.push(self.die1);
        out.push(self.die2);
        out.push(self.total);
        out.push(self.new_phase);
        out.push(self.point);
        out.push(self.seven_out);
        push_all(&mut out, &self._padding);
        assert(out@ =~= dice_rolled_event_bytes(*self));
        out
    }
}

/// A payout was claimed.
#[derive(Clone, Copy)]
pub struct PayoutClaimedEvent {
    /// Header.
    pub header: EventHeader,
    /// Player key.
    pub player: [u8; 32],
    /// Total payout.
    pub payout_amount: [u8; 8],
    /// Number of winning bets.
    pub winning_bets: [u8; 2],
    /// Number of losing bets.
    pub losing_bets: [u8; 2],
    /// Epoch claimed for.
    pub claim_epoch: [u8; 8],
    /// Zero.
    pub _padding: [u8; 4],
}

/// The bytes of the event, field after field.
pub open spec fn payout_claimed_event_bytes(e: PayoutClaimedEvent) -> Seq<u8> {
    header_bytes(e.header)
        + e.player@
        + e.payout_amount@
        + e.winning_bets@
        + e.losing_bets@
        + e.claim_epoch@
        + e._padding@
}

impl PayoutClaimedEvent {
    /// The event's bytes.
    pub fn to_bytes(&self) -> (r: Vec<u8>)
        ensures
            r@ == payout_claimed_event_bytes(*self),
    {
        let mut out = self.header.to_bytes();
        push_all(&mut out, &self.player);
        push_all(&mut out, &self.payout_amount);
        push_all(&mut out, &self.winning_bets);
        push_all(&mut out, &self.losing_bets);
        push_all(&mut out, &self.claim_epoch);
        push_all(&mut out, &self._padding);
        assert(out@ =~= payout_claimed_event_bytes(*self));
        out
    }
}

/// Tokens were deposited.
#[derive(Clone, Copy)]
pub struct DepositEvent {
    /// Header.
    pub header: EventHeader,
    /// Player key.
    pub player: [u8; 32],
    /// Deposit amount.
    pub amount: [u8; 8],
    /// Balance after it.
    pub new_balance: [u8; 8],
    /// 1 where payouts were claimed on the way.
    pub auto_claimed: u8,
    /// Zero.
    pub _padding: [u8; 7],
}

/// The bytes of the event, field after field.
pub open spec fn deposit_event_bytes(e: DepositEvent) -> Seq<u8> {
    header_bytes(e.header)
        + e.player@
        + e.amount@
        + e.new_balance@
        + seq![e.auto_claimed]
        + e._padding@
}

impl DepositEvent {
    /// The event's bytes.
    pub fn to_bytes(&self) -> (r: Vec<u8>)
        ensures
            r@ == deposit_event_bytes(*self),
    {
        let mut out = self.header.to_bytes();
        push_all(&mut out, &self.player);
        push_all(&mut out, &self.amount);
        push_all(&mut out, &self.new_balance);
        out.push(self.auto_claimed);
        push_all(&mut out, &self._padding);
        assert(out@ =~= deposit_event_bytes(*self));
        out
    }
}

/// Tokens were withdrawn.
#[derive(Clone, Copy)]
pub struct WithdrawalEvent {
    /// Header.
    pub header: EventHeader,
    /// Player key.
    pub player: [u8; 32],
    /// Withdrawal amount.
    pub amount: [u8; 8],
    /// Balance after it.
    pub new_balance: [u8; 8],
    /// 1 where payouts were claimed on the way.
    pub auto_claimed: u8,
    /// Zero.
    pub _padding: [u8; 7],
}

/// The bytes of the event, field after field.
pub open spec fn withdrawal_event_bytes(e: WithdrawalEvent) -> Seq<u8> {
    header_bytes(e.header)
        + e.player@
        + e.amount@
        + e.new_balance@
        + seq![e.auto_claimed]
        + e._padding@
}

impl WithdrawalEvent {
    /// The event's bytes.
    pub fn to_bytes(&self) -> (r: Vec<u8>)
        ensures
            r@ == withdrawal_event_bytes(*self),
    {
        let mut out = self.header.to_bytes();
        push_all(&mut out, &self.player);
        push_all(&mut out, &self.amount);
        push_all(&mut out, &self.new_balance);
        out.push(self.auto_claimed);
        push_all(&mut out, &self._padding);
        assert(out@ =~= withdrawal_event_bytes(*self));
        out
    }
}

/// An emergency action was taken.
#[derive(Clone, Copy)]
pub struct EmergencyActionEvent {
    /// Header.
    pub header: EventHeader,
    /// Authority that acted.
    pub authority: [u8; 32],
    /// 0 shutdown, 1 resume, 2 pause game, 3 resume game.
    pub action: u8,
    /// State before.
    pub prev_state: u8,
    /// State after.
    pub new_state: u8,
    /// Zero.
    pub _padding: [u8; 5],
}

/// The bytes of the event, field after field.
pub open spec fn emergency_action_event_bytes(e: EmergencyActionEvent) -> Seq<u8> {
    header_bytes(e.header)
        + e.authority@
        + seq![e.action]
        + seq![e.prev_state]
        + seq![e.new_state]
        + e._padding@
}

impl EmergencyActionEvent {
    /// The event's bytes.
    pub fn to_bytes(&self) -> (r: Vec<u8>)
        ensures
            r@ == emergency_action_event_bytes(*self),
    {
        let mut out = self.header.to_bytes();
        push_all(&mut out, &self.authority);
        out.push(self.action);
        out.push(self.prev_state);
        out.push(self.new_state);
        push_all(&mut out, &self._padding);
        assert(out@ =~= emergency_action_event_bytes(*self));
        out
    }
}

/// The bytes of a bet placed event.
pub open spec fn bet_placed_bytes(player: Seq<u8>, bet_type: u8, amount: u64, batch_index: u16, epoch: u64, slot: u64, timestamp: i64) -> Seq<u8> {
    header_for(EventType::BetPlaced, timestamp, epoch, slot) + player + seq![bet_type]
        + spec_u64_to_le_bytes(amount) + spec_u16_to_le_bytes(batch_index) + zeros(5)
}

/// The log line of a bet placed event.
pub fn emit_bet_placed(player: &[u8; 32], bet_type: u8, amount: u64, batch_index: u16, epoch: u64, slot: u64, timestamp: i64) -> (r: String)
    ensures
        r@ == event_line(bet_placed_bytes(player@, bet_type, amount, batch_index, epoch, slot, timestamp)),
{
    let event = BetPlacedEvent {
        header: EventHeader::new(EventType::BetPlaced, timestamp, epoch, slot),
        player: *player,
        bet_type,
        amount: write_u64(amount),
        batch_index: write_u16(batch_index),
        _padding: [0; 5],
    };
    let bytes = event.to_bytes();
    assert(bytes@ =~= bet_placed_bytes(player@, bet_type, amount, batch_index, epoch, slot, timestamp));
    event_log_line(bytes.as_slice())
}

/// The bytes of a dice rolled event.
pub open spec fn dice_rolled_bytes(die1: u8, die2: u8, new_phase: u8, point: u8, seven_out: bool, epoch: u64, slot: u64, timestamp: i64) -> Seq<u8> {
    header_for(EventType::DiceRolled, timestamp, epoch, slot)
        + seq![die1, die2, (die1 + die2) as u8, new_phase, point, if seven_out { 1u8 } else { 0u8 }]
        + zeros(2)
}

/// The log line of a dice rolled event.
pub fn emit_dice_rolled(die1: u8, die2: u8, new_phase: u8, point: u8, seven_out: bool, epoch: u64, slot: u64, timestamp: i64) -> (r: String)
    requires
        die1 + die2 <= u8::MAX,
    ensures
        r@ == event_line(dice_rolled_bytes(die1, die2, new_phase, point, seven_out, epoch, slot, timestamp)),
{
    let event = DiceRolledEvent {
        header: EventHeader::new(EventType::DiceRolled, timestamp, epoch, slot),
        die1,
        die2,
        total: die1 + die2,
        new_phase,
        point,
        seven_out: if seven_out { 1 } else { 0 },
        _padding: [0; 2],
    };
    let bytes = event.to_bytes();
    assert(bytes@ =~= dice_rolled_bytes(die1, die2, new_phase, point, seven_out, epoch, slot, timestamp));
    event_log_line(bytes.as_slice())
}

/// The bytes of a payout claimed event.
pub open spec fn payout_claimed_bytes(player: Seq<u8>, payout_amount: u64, winning_bets: u16, losing_bets: u16, claim_epoch: u64, current_epoch: u64, slot: u64, timestamp: i64) -> Seq<u8> {
    header_for(EventType::PayoutClaimed, timestamp, current_epoch, slot) + player
        + spec_u64_to_le_bytes(payout_amount) + spec_u16_to_le_bytes(winning_bets)
        + spec_u16_to_le_bytes(losing_bets) + spec_u64_to_le_bytes(claim_epoch) + zeros(4)
}

/// The log line of a payout claimed event.
pub fn emit_payout_claimed(player: &[u8; 32], payout_amount: u64, winning_bets: u16, losing_bets: u16, claim_epoch: u64, current_epoch: u64, slot: u64, timestamp: i64) -> (r: String)
    ensures
        r@ == event_line(payout_claimed_bytes(player@, payout_amount, winning_bets, losing_bets, claim_epoch, current_epoch, slot, timestamp)),
{
    let event = PayoutClaimedEvent {
        header: EventHeader::new(EventType::PayoutClaimed, timestamp, current_epoch, slot),
        player: *player,
        payout_amount: write_u64(payout_amount),
        winning_bets: write_u16(winning_bets),
        losing_bets: write_u16(losing_bets),
        claim_epoch: write_u64(claim_epoch),
        _padding: [0; 4],
    };
    let bytes = event.to_bytes();
    assert(bytes@ =~= payout_claimed_bytes(player@, payout_amount, winning_bets, losing_bets, claim_epoch, current_epoch, slot, timestamp));
    event_log_line(bytes.as_slice())
}

/// The bytes of a deposit or withdrawal event of a kind.
pub open spec fn balance_event_bytes(kind: EventType, player: Seq<u8>, amount: u64, new_balance: u64, auto_claimed: bool, epoch: u64, slot: u64, timestamp: i64) -> Seq<u8> {
    header_for(kind, timestamp, epoch, slot) + player + spec_u64_to_le_bytes(amount)
        + spec_u64_to_le_bytes(new_balance) + seq![if auto_claimed { 1u8 } else { 0u8 }] + zeros(7)
}

/// The log line of a deposit event.
pub fn emit_deposit(player: &[u8; 32], amount: u64, new_balance: u64, auto_claimed: bool, epoch: u64, slot: u64, timestamp: i64) -> (r: String)
    ensures
        r@ == event_line(balance_event_bytes(EventType::DepositMade, player@, amount, new_balance, auto_claimed, epoch, slot, timestamp)),
{
    let event = DepositEvent {
        header: EventHeader::new(EventType::DepositMade, timestamp, epoch, slot),
        player: *player,
        amount: write_u64(amount),
        new_balance: write_u64(new_balance),
        auto_claimed: if auto_claimed { 1 } else { 0 },
        _padding: [0; 7],
    };
    let bytes = event.to_bytes();
    assert(bytes@ =~= balance_event_bytes(EventType::DepositMade, player@, amount, new_balance, auto_claimed, epoch, slot, timestamp));
    event_log_line(bytes.as_slice())
}

/// The log line of a withdrawal event.
pub fn emit_withdrawal(player: &[u8; 32], amount: u64, new_balance: u64, auto_claimed: bool, epoch: u64, slot: u64, timestamp: i64) -> (r: String)
    ensures
        r@ == event_line(balance_event_bytes(EventType::WithdrawalMade, player@, amount, new_balance, auto_claimed, epoch, slot, timestamp)),
{
    let event = WithdrawalEvent {
        header: EventHeader::new(EventType::WithdrawalMade, timestamp, epoch, slot),
        player: *player,
        amount: write_u64(amount),
        new_balance: write_u64(new_balance),
        auto_claimed: if auto_claimed { 1 } else { 0 },
        _padding: [0; 7],
    };
    let bytes = event.to_bytes();
    assert(bytes@ =~= balance_event_bytes(EventType::WithdrawalMade, player@, amount, new_balance, auto_claimed, epoch, slot, timestamp));
    event_log_line(bytes.as_slice())
}

/// The bytes of an emergency action event.
pub open spec fn emergency_action_bytes(authority: Seq<u8>, action: u8, prev_state: u8, new_state: u8, epoch: u64, slot: u64, timestamp: i64) -> Seq<u8> {
    header_for(EventType::EmergencyAction, timestamp, epoch, slot) + authority
        + seq![action, prev_state, new_state] + zeros(5)
}

/// The log line of an emergency action event.
pub fn emit_emergency_action(authority: &[u8; 32], action: u8, prev_state: u8, new_state: u8, epoch: u64, slot: u64, timestamp: i64) -> (r: String)
    ensures
        r@ == event_line(emergency_action_bytes(authority@, action, prev_state, new_state, epoch, slot, timestamp)),
{
    let event = EmergencyActionEvent {
        header: EventHeader::new(EventType::EmergencyAction, timestamp, epoch, slot),
        authority: *authority,
        action,
        prev_state,
        new_state,
        _padding: [0; 5],
    };
    let bytes = event.to_bytes();
    assert(bytes@ =~= emergency_action_bytes(authority@, action, prev_state, new_state, epoch, slot, timestamp));
    event_log_line(bytes.as_slice())
}

/// The decimal digits of a number.
pub open spec fn decimal(n: nat) -> Seq<char>
    decreases n,
{
    if n < 10 {
        seq![digit_char(n)]
    } else {
        decimal(n / 10) + seq![digit_char(n % 10)]
    }
}

/// The character of a decimal digit.
pub open spec fn digit_char(d: nat) -> char {
    if d == 0 { '0' } else if d == 1 { '1' } else if d == 2 { '2' } else if d == 3 { '3' }
    else if d == 4 { '4' } else if d == 5 { '5' } else if d == 6 { '6' } else if d == 7 { '7' }
    else if d == 8 { '8' } else { '9' }
}

fn push_digit(s: &mut String, d: u8)
    requires
        d < 10,
    ensures
        final(s)@ == old(s)@ + seq![digit_char(d as nat)],
{
    let t: &str = match d {
        0 => "0",
        1 => "1",
        2 => "2",
        3 => "3",
        4 => "4",
        5 => "5",
        6 => "6",
        7 => "7",
        8 => "8",
        _ => "9",
    };
    proof {
        reveal_strlit("0");
        reveal_strlit("1");
        reveal_strlit("2");
        reveal_strlit("3");
        reveal_strlit("4");
        reveal_strlit("5");
        reveal_strlit("6");
        reveal_strlit("7");
        reveal_strlit("8");
        reveal_strlit("9");
        assert(t@ =~= seq![digit_char(d as nat)]);
    }
    s.append(t);
}

/// Appends the decimal digits of a byte.
pub fn push_decimal(s: &mut String, n: u8)
    ensures
        final(s)@ == old(s)@ + decimal(n as nat),
{
    if n >= 100 {
        push_digit(s, n / 100);
        push_digit(s, (n / 10) % 10);
        push_digit(s, n % 10);
        proof {
            let a: nat = (n / 100) as nat;
            let b: nat = (n / 10) as nat;
            assert(b / 10 == a);
            assert(decimal(a) == seq![digit_char(a)]);
            assert(decimal(b) == decimal(b / 10) + seq![digit_char(b % 10)]);
            assert(decimal(n as nat) == decimal(b) + seq![digit_char((n % 10) as nat)]);
            assert(decimal(n as nat) =~= seq![digit_char(a), digit_char(b % 10), digit_char((n % 10) as nat)]);
        }
    } else if n >= 10 {
        push_digit(s, n / 10);
        push_digit(s, n % 10);
        proof {
            let b: nat = (n / 10) as nat;
            assert(decimal(b) == seq![digit_char(b)]);
            assert(decimal(n as nat) == decimal(b) + seq![digit_char((n % 10) as nat)]);
            assert(decimal(n as nat) =~= seq![digit_char(b), digit_char((n % 10) as nat)]);
        }
    } else {
        push_digit(s, n);
    }
}

/// The log line of a plain event: `EVENT_`, the kind's tag in decimal, `:` and the message.
pub open spec fn simple_event_line(event_type: EventType, message: Seq<char>) -> Seq<char> {
    seq!['E', 'V', 'E', 'N', 'T', '_'] + decimal(event_code(event_type) as nat) + seq![':'] + message
}

/// The log line of a plain event with a message.
pub fn emit_simple_event(event_type: EventType, message: &str) -> (r: String)
    ensures
        r@ == simple_event_line(event_type, message@),
{
    let mut line = String::from_str("EVENT_");
    proof {
        reveal_strlit("EVENT_");
        reveal_strlit(":");
    }
    push_decimal(&mut line, event_type.code());
    line.append(":");
    line.append(message);
    line
}

} // verus!
