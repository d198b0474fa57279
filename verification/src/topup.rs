//! Top-ups: requests to fund an account by QRIS, by card or from a wallet.

use crate::digest::{sha256, sha256_digest};
use crate::identity::{principal_text, AccountId};
use crate::ledger::capped_sum;
use crate::rates::{
    calculate_icp_amount, conversion, format_token_amount, push_two_places, token_text,
    two_places, ConversionError,
};
use crate::text::{
    chars_of, contains_text, decimal, has_substring, hex_upper, push_decimal, push_hex_prefix,
    same_text,
};
use crate::types::{
    CardData, CardDataInput, CardDataView, ExchangeRate, QRISData, QRISDataView,
    TopUpMethod, TopUpPaymentData, TopUpPaymentDataView, TopUpStatus, TopUpTransaction,
    TopUpView, Web3Data, Web3DataView,
};
use vstd::prelude::*;
use vstd::string::StringExecFns;
use vstd::utf8::encode_utf8;

verus! {

/// Nanoseconds for which a QRIS top-up can be claimed.
pub const QRIS_LIFETIME: u64 = 15 * 60 * 1_000_000_000;

/// Nanoseconds for which a card top-up can be completed.
pub const CARD_LIFETIME: u64 = 60 * 60 * 1_000_000_000;

/// Nanoseconds for which a wallet top-up can be completed.
pub const WEB3_LIFETIME: u64 = 30 * 60 * 1_000_000_000;

/// Why a card is refused.
#[derive(Clone, Copy, Debug, PartialEq, Eq, Structural)]
pub enum CardError {
    /// The number is none of the known cards.
    UnknownNumber,
    /// The security code does not have three characters.
    BadCvv,
    /// The name of the holder has fewer than three characters.
    NameTooShort,
}

/// Why a top-up was not made.
#[derive(Clone, Copy, Debug, PartialEq, Eq, Structural)]
pub enum TopUpError {
    /// The card is refused.
    Card(CardError),
    /// The amount cannot be converted into tokens.
    Conversion(ConversionError),
}

/// The address under which the gateway shows its pages.
pub open spec fn base_url() -> Seq<char> {
    "http://localhost:3000"@
}

/// The text from which the identifier of a top-up is derived.
pub open spec fn topup_id_seed(caller: Seq<u8>, now: u64) -> Seq<char> {
    "topup-"@ + decimal(now as nat) + "-"@ + principal_text(caller) + "-"@ + decimal(
        (now % 1000000) as nat,
    )
}

/// The identifier of the top-up that `caller` asks for at `now`: `TU_` and
/// the first 29 characters of the upper-case hexadecimal SHA-256 digest of
/// the seed.
pub open spec fn topup_id_for(caller: Seq<u8>, now: u64) -> Seq<char> {
    "TU_"@ + hex_upper(sha256(encode_utf8(topup_id_seed(caller, now)))).take(29)
}

/// The QRIS payload for a fiat amount in millionths.
pub open spec fn qris_payload(fiat_amount: u64) -> Seq<char> {
    "00020101021226580014ID.CO.QRIS.WWW0114ID.CO.QRIS.WWW02150000000000000000303ID.CO.QRIS.WWW540"@
        + two_places(fiat_amount) + "5303360540"@ + two_places(fiat_amount)
        + "5802ID5914ICP Payment6015Jakarta Selatan61051240062070703A0163046D4F"@
}

/// A payload with nothing in it.
pub open spec fn no_payment_data() -> TopUpPaymentDataView {
    TopUpPaymentDataView { qris_data: Seq::empty(), card_data: Seq::empty(), web3_data: Seq::empty() }
}

/// The cards that are known.
pub open spec fn known_cards() -> Seq<Seq<char>> {
    seq!["4111111111111111"@, "5555555555554444"@, "4000000000000002"@, "1234567890123456"@]
}

/// What the check of a card gives: the number must be known, the security
/// code three bytes long and the name of the holder at least three.
pub open spec fn card_check(number: Seq<char>, cvv: Seq<char>, name: Seq<char>) -> Result<
    (),
    CardError,
> {
    if !known_cards().contains(number) {
        Err(CardError::UnknownNumber)
    } else if encode_utf8(cvv).len() != 3 {
        Err(CardError::BadCvv)
    } else if encode_utf8(name).len() < 3 {
        Err(CardError::NameTooShort)
    } else {
        Ok(())
    }
}

/// A card number with all but its first and last four characters hidden; a
/// number of fewer than sixteen characters is hidden as a whole.
pub open spec fn masked(number: Seq<char>) -> Seq<char> {
    if number.len() >= 16 {
        number.take(4) + "****"@ + number.skip(number.len() - 4)
    } else {
        "****"@
    }
}

/// The brand of a card, by the first character of its number.
pub open spec fn card_brand(number: Seq<char>) -> Seq<char> {
    if number.len() > 0 && number[0] == '4' {
        "Visa"@
    } else if number.len() > 0 && number[0] == '5' {
        "Mastercard"@
    } else if number.len() > 0 && number[0] == '1' {
        "Demo Card"@
    } else {
        "Unknown"@
    }
}

/// Whether the time to complete the top-up is over at `now`: for QRIS by the
/// time its payload names, for a card an hour and for a wallet half an hour
/// after the top-up was made.
pub open spec fn topup_expired(topup: TopUpView, now: u64) -> bool {
    match topup.payment_method {
        TopUpMethod::QRIS => topup.payment_data.qris_data.len() > 0 && now
            > topup.payment_data.qris_data[0].expire_time,
        TopUpMethod::CreditCard => now > topup.created_at + CARD_LIFETIME,
        TopUpMethod::DebitCard => now > topup.created_at + CARD_LIFETIME,
        TopUpMethod::Web3Wallet => now > topup.created_at + WEB3_LIFETIME,
    }
}

/// Whether the card of a top-up is accepted: a masked number that holds
/// `0002` is declined, and a top-up without a card is accepted.
pub open spec fn card_accepted(topup: TopUpView) -> bool {
    topup.payment_data.card_data.len() == 0 || !has_substring(
        topup.payment_data.card_data[0].card_number,
        "0002"@,
    )
}

/// The QRIS top-up that `user_id` asks for at `now`.
pub open spec fn new_qris_topup(
    user_id: Seq<u8>,
    fiat_amount: u64,
    currency: Seq<char>,
    rate: u64,
    now: u64,
) -> Result<TopUpView, TopUpError> {
    match conversion(fiat_amount, rate) {
        Err(error) => Err(TopUpError::Conversion(error)),
        Ok(amount) => Ok(
            TopUpView {
                id: topup_id_for(user_id, now),
                user_id,
                amount,
                fiat_amount,
                fiat_currency: currency,
                payment_method: TopUpMethod::QRIS,
                payment_data: TopUpPaymentDataView {
                    qris_data: seq![
                        QRISDataView {
                            qr_code_url: base_url() + "/qris/"@ + topup_id_for(user_id, now),
                            qr_code_data: qris_payload(fiat_amount),
                            merchant_id: "ICP_PAYMENT_001"@,
                            expire_time: capped_sum(now, QRIS_LIFETIME),
                        },
                    ],
                    ..no_payment_data()
                },
                status: TopUpStatus::Pending,
                created_at: now,
                processed_at: None,
                reference_id: topup_id_for(user_id, now),
            },
        ),
    }
}

/// The card top-up that `user_id` asks for at `now`.
pub open spec fn new_card_topup(
    user_id: Seq<u8>,
    fiat_amount: u64,
    currency: Seq<char>,
    number: Seq<char>,
    cvv: Seq<char>,
    name: Seq<char>,
    is_credit: bool,
    rate: u64,
    now: u64,
) -> Result<TopUpView, TopUpError> {
    match card_check(number, cvv, name) {
        Err(error) => Err(TopUpError::Card(error)),
        Ok(_) => match conversion(fiat_amount, rate) {
            Err(error) => Err(TopUpError::Conversion(error)),
            Ok(amount) => Ok(
                TopUpView {
                    id: topup_id_for(user_id, now),
                    user_id,
                    amount,
                    fiat_amount,
                    fiat_currency: currency,
                    payment_method: if is_credit {
                        TopUpMethod::CreditCard
                    } else {
                        TopUpMethod::DebitCard
                    },
                    payment_data: TopUpPaymentDataView {
                        card_data: seq![
                            CardDataView {
                                card_number: masked(number),
                                card_type: card_brand(number),
                                payment_gateway: "ICP_GATEWAY"@,
                                transaction_id: "TXN_"@ + topup_id_for(user_id, now),
                            },
                        ],
                        ..no_payment_data()
                    },
                    status: TopUpStatus::Processing,
                    created_at: now,
                    processed_at: None,
                    reference_id: topup_id_for(user_id, now),
                },
            ),
        },
    }
}

/// The wallet top-up that `user_id` asks for at `now`.
pub open spec fn new_web3_topup(
    user_id: Seq<u8>,
    fiat_amount: u64,
    currency: Seq<char>,
    wallet_address: Seq<char>,
    rate: u64,
    now: u64,
) -> Result<TopUpView, TopUpError> {
    match conversion(fiat_amount, rate) {
        Err(error) => Err(TopUpError::Conversion(error)),
        Ok(amount) => Ok(
            TopUpView {
                id: topup_id_for(user_id, now),
                user_id,
                amount,
                fiat_amount,
                fiat_currency: currency,
                payment_method: TopUpMethod::Web3Wallet,
                payment_data: TopUpPaymentDataView {
                    web3_data: seq![
                        Web3DataView {
                            wallet_address,
                            blockchain_network: "Internet Computer"@,
                            transaction_hash: None,
                            confirmation_count: 0,
                        },
                    ],
                    ..no_payment_data()
                },
                status: TopUpStatus::Pending,
                created_at: now,
                processed_at: None,
                reference_id: topup_id_for(user_id, now),
            },
        ),
    }
}

/// A top-up or the reason why there is none, the top-up as its view.
pub open spec fn topup_result_view(r: Result<TopUpTransaction, TopUpError>) -> Result<
    TopUpView,
    TopUpError,
> {
    match r {
        Ok(topup) => Ok(topup@),
        Err(error) => Err(error),
    }
}

impl CardError {
    /// What to tell the caller.
    pub fn message(&self) -> (text: String)
        ensures
            text@ == match *self {
                CardError::UnknownNumber => "Invalid card number for MVP demo"@,
                CardError::BadCvv => "CVV must be 3 digits"@,
                CardError::NameTooShort => "Cardholder name too short"@,
            },
    {
        match self {
            CardError::UnknownNumber => String::from_str("Invalid card number for MVP demo"),
            CardError::BadCvv => String::from_str("CVV must be 3 digits"),
            CardError::NameTooShort => String::from_str("Cardholder name too short"),
        }
    }
}

impl TopUpError {
    /// What to tell the caller.
    pub fn message(&self) -> (text: String)
        ensures
            text@ == match *self {
                TopUpError::Card(CardError::UnknownNumber) => "Invalid card number for MVP demo"@,
                TopUpError::Card(CardError::BadCvv) => "CVV must be 3 digits"@,
                TopUpError::Card(CardError::NameTooShort) => "Cardholder name too short"@,
                TopUpError::Conversion(ConversionError::AmountNotPositive) => "Fiat amount must be greater than 0"@,
                TopUpError::Conversion(ConversionError::RateNotPositive) => "Exchange rate must be greater than 0"@,
                TopUpError::Conversion(ConversionError::ConversionTooSmall) => "Amount too small, results in 0 e8s"@,
            },
    {
        match self {
            TopUpError::Card(error) => error.message(),
            TopUpError::Conversion(error) => error.message(),
        }
    }
}

/// The address under which the gateway shows its pages.
pub fn get_base_url() -> (url: &'static str)
    ensures
        url@ == base_url(),
{
    "http://localhost:3000"
}

/// Derives the identifier of the top-up that `caller` asks for at `now`.
pub fn generate_topup_id(caller: &AccountId, now: u64) -> (id: String)
    ensures
        id@ == topup_id_for(caller@, now),
{
    let mut seed = String::from_str("topup-");
    push_decimal(&mut seed, now);
    seed.append("-");
    let text = caller.to_text();
    seed.append(text.as_str());
    seed.append("-");
    push_decimal(&mut seed, now % 1000000);
    let digest = sha256_digest(seed.as_str().as_bytes());
    let mut id = String::from_str("TU_");
    push_hex_prefix(&mut id, &digest, 29);
    id
}

/// Makes a QRIS top-up of `user_id` for `fiat_amount`, in millionths of
/// `currency`, at the given rate. It waits to be claimed for a quarter of an
/// hour.
pub fn create_qris_topup(
    user_id: AccountId,
    fiat_amount: u64,
    currency: String,
    exchange_rate: &ExchangeRate,
    now: u64,
) -> (r: Result<TopUpTransaction, TopUpError>)
    ensures
        topup_result_view(r) == new_qris_topup(
            user_id@,
            fiat_amount,
            currency@,
            exchange_rate.rate,
            now,
        ),
{
    let amount = match calculate_icp_amount(fiat_amount, exchange_rate.rate) {
        Ok(amount) => amount,
        Err(error) => {
            return Err(TopUpError::Conversion(error));
        },
    };
    let topup_id = generate_topup_id(&user_id, now);
    let mut qr_code_url = String::from_str(get_base_url());
    qr_code_url.append("/qris/");
    qr_code_url.append(topup_id.as_str());
    let mut qr_code_data = String::from_str(
        "00020101021226580014ID.CO.QRIS.WWW0114ID.CO.QRIS.WWW02150000000000000000303ID.CO.QRIS.WWW540",
    );
    push_two_places(&mut qr_code_data, fiat_amount);
    qr_code_data.append("5303360540");
    push_two_places(&mut qr_code_data, fiat_amount);
    qr_code_data.append("5802ID5914ICP Payment6015Jakarta Selatan61051240062070703A0163046D4F");
    let mut qris_data: Vec<QRISData> = Vec::new();
    qris_data.push(
        QRISData {
            qr_code_url,
            qr_code_data,
            merchant_id: String::from_str("ICP_PAYMENT_001"),
            expire_time: now.saturating_add(QRIS_LIFETIME),
        },
    );
    let payment_data = TopUpPaymentData { qris_data, card_data: Vec::new(), web3_data: Vec::new() };
    let topup = TopUpTransaction {
        id: topup_id.clone(),
        user_id,
        amount,
        fiat_amount,
        fiat_currency: currency,
        payment_method: TopUpMethod::QRIS,
        payment_data,
        status: TopUpStatus::Pending,
        created_at: now,
        processed_at: None,
        reference_id: topup_id,
    };
    assert(topup@.payment_data.qris_data =~= new_qris_topup(
        user_id@,
        fiat_amount,
        currency@,
        exchange_rate.rate,
        now,
    )->Ok_0.payment_data.qris_data);
    assert(topup@.payment_data.card_data =~= Seq::<CardDataView>::empty());
    assert(topup@.payment_data.web3_data =~= Seq::<Web3DataView>::empty());
    Ok(topup)
}

/// Whether the time to complete the top-up is over at `now`.
pub fn check_payment_expiration(topup: &TopUpTransaction, now: u64) -> (r: bool)
    ensures
        r == topup_expired(topup@, now),
{
    match topup.payment_method {
        TopUpMethod::QRIS => {
            if topup.payment_data.qris_data.len() > 0 {
                assert(topup@.payment_data.qris_data[0] == topup.payment_data.qris_data@[0]@);
                now > topup.payment_data.qris_data[0].expire_time
            } else {
                false
            }
        },
        TopUpMethod::CreditCard | TopUpMethod::DebitCard => {
            match topup.created_at.checked_add(CARD_LIFETIME) {
                Some(end) => now > end,
                None => false,
            }
        },
        TopUpMethod::Web3Wallet => {
            match topup.created_at.checked_add(WEB3_LIFETIME) {
                Some(end) => now > end,
                None => false,
            }
        },
    }
}

/// Makes a card top-up of `user_id` for `fiat_amount`, in millionths of
/// `currency`, at the given rate. The card is checked first; of its number
/// only the masked form is kept.
pub fn create_card_topup(
    user_id: AccountId,
    fiat_amount: u64,
    currency: String,
    card_input: CardDataInput,
    is_credit: bool,
    exchange_rate: &ExchangeRate,
    now: u64,
) -> (r: Result<TopUpTransaction, TopUpError>)
    ensures
        topup_result_view(r) == new_card_topup(
            user_id@,
            fiat_amount,
            currency@,
            card_input.card_number@,
            card_input.cvv@,
            card_input.cardholder_name@,
            is_credit,
            exchange_rate.rate,
            now,
        ),
{
    match validate_card_data(&card_input) {
        Err(error) => {
            return Err(TopUpError::Card(error));
        },
        Ok(_) => {},
    }
    let amount = match calculate_icp_amount(fiat_amount, exchange_rate.rate) {
        Ok(amount) => amount,
        Err(error) => {
            return Err(TopUpError::Conversion(error));
        },
    };
    let topup_id = generate_topup_id(&user_id, now);
    let mut transaction_id = String::from_str("TXN_");
    transaction_id.append(topup_id.as_str());
    let mut card_data: Vec<CardData> = Vec::new();
    card_data.push(
        CardData {
            card_number: mask_card_number(card_input.card_number.as_str()),
            card_type: detect_card_type(card_input.card_number.as_str()),
            payment_gateway: String::from_str("ICP_GATEWAY"),
            transaction_id,
        },
    );
    let payment_data = TopUpPaymentData { qris_data: Vec::new(), card_data, web3_data: Vec::new() };
    let method = if is_credit {
        TopUpMethod::CreditCard
    } else {
        TopUpMethod::DebitCard
    };
    let topup = TopUpTransaction {
        id: topup_id.clone(),
        user_id,
        amount,
        fiat_amount,
        fiat_currency: currency,
        payment_method: method,
        payment_data,
        status: TopUpStatus::Processing,
        created_at: now,
        processed_at: None,
        reference_id: topup_id,
    };
    assert(topup@.payment_data.card_data =~= new_card_topup(
        user_id@,
        fiat_amount,
        currency@,
        card_input.card_number@,
        card_input.cvv@,
        card_input.cardholder_name@,
        is_credit,
        exchange_rate.rate,
        now,
    )->Ok_0.payment_data.card_data);
    assert(topup@.payment_data.qris_data =~= Seq::<QRISDataView>::empty());
    assert(topup@.payment_data.web3_data =~= Seq::<Web3DataView>::empty());
    Ok(topup)
}

/// Checks a card as its holder typed it in.
pub fn validate_card_data(card_input: &CardDataInput) -> (r: Result<(), CardError>)
    ensures
        r == card_check(card_input.card_number@, card_input.cvv@, card_input.cardholder_name@),
{
    let number = card_input.card_number.as_str();
    let known = same_text(number, "4111111111111111") || same_text(number, "5555555555554444")
        || same_text(number, "4000000000000002") || same_text(number, "1234567890123456");
    assert(known == known_cards().contains(card_input.card_number@)) by {
        if known {
            assert(known_cards()[0] == "4111111111111111"@);
            assert(known_cards()[1] == "5555555555554444"@);
            assert(known_cards()[2] == "4000000000000002"@);
            assert(known_cards()[3] == "1234567890123456"@);
        }
    }
    if !known {
        return Err(CardError::UnknownNumber);
    }
    if card_input.cvv.as_str().as_bytes().len() != 3 {
        return Err(CardError::BadCvv);
    }
    if card_input.cardholder_name.as_str().as_bytes().len() < 3 {
        return Err(CardError::NameTooShort);
    }
    Ok(())
}

/// Hides all of a card number but its first and last four characters.
pub fn mask_card_number(card_number: &str) -> (r: String)
    ensures
        r@ == masked(card_number@),
{
    let chars = chars_of(card_number);
    let n = chars.len();
    if n >= 16 {
        let mut r = String::new();
        let mut i: usize = 0;
        while i < 4
            invariant
                i <= 4,
                n == chars.len(),
                n >= 16,
                r@ == chars@.take(i as int),
            decreases 4 - i,
        {
            r.push(chars[i]);
            i += 1;
        }
        r.append("****");
        let mut j: usize = n - 4;
        while j < n
            invariant
                n - 4 <= j <= n,
                n == chars.len(),
                n >= 16,
                r@ == chars@.take(4) + "****"@ + chars@.subrange(n - 4, j as int),
            decreases n - j,
        {
            r.push(chars[j]);
            assert(chars@.subrange(n - 4, j + 1) == chars@.subrange(n - 4, j as int).push(
                chars@[j as int],
            ));
            j += 1;
        }
        assert(chars@.subrange(n - 4, n as int) == chars@.skip(n - 4));
        r
    } else {
        String::from_str("****")
    }
}

/// The brand of a card, by the first character of its number.
pub fn detect_card_type(card_number: &str) -> (r: String)
    ensures
        r@ == card_brand(card_number@),
{
    let chars = chars_of(card_number);
    if chars.len() > 0 && chars[0] == '4' {
        String::from_str("Visa")
    } else if chars.len() > 0 && chars[0] == '5' {
        String::from_str("Mastercard")
    } else if chars.len() > 0 && chars[0] == '1' {
        String::from_str("Demo Card")
    } else {
        String::from_str("Unknown")
    }
}

/// Makes a wallet top-up of `user_id` for `fiat_amount`, in millionths of
/// `currency`, at the given rate.
pub fn create_web3_topup(
    user_id: AccountId,
    fiat_amount: u64,
    currency: String,
    wallet_address: String,
    exchange_rate: &ExchangeRate,
    now: u64,
) -> (r: Result<TopUpTransaction, TopUpError>)
    ensures
        topup_result_view(r) == new_web3_topup(
            user_id@,
            fiat_amount,
            currency@,
            wallet_address@,
            exchange_rate.rate,
            now,
        ),
{
    let amount = match calculate_icp_amount(fiat_amount, exchange_rate.rate) {
        Ok(amount) => amount,
        Err(error) => {
            return Err(TopUpError::Conversion(error));
        },
    };
    let topup_id = generate_topup_id(&user_id, now);
    let mut web3_data: Vec<Web3Data> = Vec::new();
    web3_data.push(
        Web3Data {
            wallet_address,
            blockchain_network: String::from_str("Internet Computer"),
            transaction_hash: None,
            confirmation_count: 0,
        },
    );
    let payment_data = TopUpPaymentData { qris_data: Vec::new(), card_data: Vec::new(), web3_data };
    let topup = TopUpTransaction {
        id: topup_id.clone(),
        user_id,
        amount,
        fiat_amount,
        fiat_currency: currency,
        payment_method: TopUpMethod::Web3Wallet,
        payment_data,
        status: TopUpStatus::Pending,
        created_at: now,
        processed_at: None,
        reference_id: topup_id,
    };
    assert(topup@.payment_data.web3_data =~= new_web3_topup(
        user_id@,
        fiat_amount,
        currency@,
        wallet_address@,
        exchange_rate.rate,
        now,
    )->Ok_0.payment_data.web3_data);
    assert(topup@.payment_data.qris_data =~= Seq::<QRISDataView>::empty());
    assert(topup@.payment_data.card_data =~= Seq::<CardDataView>::empty());
    Ok(topup)
}

/// Whether the time to complete the top-up is over at `now`.
pub fn is_topup_expired(topup: &TopUpTransaction, now: u64) -> (r: bool)
    ensures
        r == topup_expired(topup@, now),
{
    check_payment_expiration(topup, now)
}

/// Writes a balance in minor units as tokens with eight decimal places.
pub fn format_balance(balance: u64) -> (text: String)
    ensures
        text@ == token_text(balance),
{
    format_token_amount(balance)
}

/// Decides whether the card of a top-up is accepted.
pub fn simulate_card_processing(topup: &TopUpTransaction) -> (accepted: bool)
    ensures
        accepted == card_accepted(topup@),
{
    if topup.payment_data.card_data.len() > 0 {
        assert(topup@.payment_data.card_data[0] == topup.payment_data.card_data@[0]@);
        return !contains_text(topup.payment_data.card_data[0].card_number.as_str(), "0002");
    }
    true
}

} // verus!
