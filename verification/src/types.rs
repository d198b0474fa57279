//! The records of the gateway and their mathematical views.

use crate::identity::AccountId;
use crate::rows::{Named, Row};
use vstd::prelude::*;

verus! {

/// Stage of a payment. A payment is recorded as one row per stage.
#[derive(Clone, Copy, Debug, PartialEq, Eq, Structural)]
pub enum TransactionStatus {
    Pending,
    Completed,
    Failed,
    Expired,
    Processing,
}

/// Kind of a balance change.
#[derive(Clone, Copy, Debug, PartialEq, Eq, Structural)]
pub enum BalanceChangeType {
    TopupCompleted,
    PaymentSent,
    PaymentReceived,
    FeeDeducted,
    Refund,
    Adjustment,
}

/// What became of an attempt to use a payment request.
#[derive(Clone, Copy, Debug, PartialEq, Eq, Structural)]
pub enum QRUsageType {
    PaymentCompleted,
    PaymentFailed,
    PaymentExpired,
}

/// How a top-up is paid.
#[derive(Clone, Copy, Debug, PartialEq, Eq, Structural)]
pub enum TopUpMethod {
    QRIS,
    CreditCard,
    DebitCard,
    Web3Wallet,
}

/// Stage of a top-up. A top-up is recorded as one row per stage.
#[derive(Clone, Copy, Debug, PartialEq, Eq, Structural)]
pub enum TopUpStatus {
    Pending,
    Processing,
    Completed,
    Failed,
    Expired,
}

/// Kind of an entry in the combined activity list.
#[derive(Clone, Copy, Debug, PartialEq, Eq, Structural)]
pub enum NetworkTransactionType {
    Payment,
    Topup,
    Withdrawal,
    Fee,
}

/// Stage of an entry in the combined activity list.
#[derive(Clone, Copy, Debug, PartialEq, Eq, Structural)]
pub enum NetworkTransactionStatus {
    Pending,
    Processing,
    Completed,
    Failed,
    Expired,
}

impl NetworkTransactionStatus {
    /// The activity stage that corresponds to a payment stage.
    pub open spec fn of_transaction(status: TransactionStatus) -> NetworkTransactionStatus {
        match status {
            TransactionStatus::Pending => NetworkTransactionStatus::Pending,
            TransactionStatus::Processing => NetworkTransactionStatus::Processing,
            TransactionStatus::Completed => NetworkTransactionStatus::Completed,
            TransactionStatus::Failed => NetworkTransactionStatus::Failed,
            TransactionStatus::Expired => NetworkTransactionStatus::Expired,
        }
    }

    /// The activity stage that corresponds to a top-up stage.
    pub open spec fn of_topup(status: TopUpStatus) -> NetworkTransactionStatus {
        match status {
            TopUpStatus::Pending => NetworkTransactionStatus::Pending,
            TopUpStatus::Processing => NetworkTransactionStatus::Processing,
            TopUpStatus::Completed => NetworkTransactionStatus::Completed,
            TopUpStatus::Failed => NetworkTransactionStatus::Failed,
            TopUpStatus::Expired => NetworkTransactionStatus::Expired,
        }
    }

    /// The activity stage that corresponds to a payment stage.
    pub fn from_transaction_status(status: &TransactionStatus) -> (r: NetworkTransactionStatus)
        ensures
            r == Self::of_transaction(*status),
    {
        match status {
            TransactionStatus::Pending => NetworkTransactionStatus::Pending,
            TransactionStatus::Processing => NetworkTransactionStatus::Processing,
            TransactionStatus::Completed => NetworkTransactionStatus::Completed,
            TransactionStatus::Failed => NetworkTransactionStatus::Failed,
            TransactionStatus::Expired => NetworkTransactionStatus::Expired,
        }
    }

    /// The activity stage that corresponds to a top-up stage.
    pub fn from_topup_status(status: &TopUpStatus) -> (r: NetworkTransactionStatus)
        ensures
            r == Self::of_topup(*status),
    {
        match status {
            TopUpStatus::Pending => NetworkTransactionStatus::Pending,
            TopUpStatus::Processing => NetworkTransactionStatus::Processing,
            TopUpStatus::Completed => NetworkTransactionStatus::Completed,
            TopUpStatus::Failed => NetworkTransactionStatus::Failed,
            TopUpStatus::Expired => NetworkTransactionStatus::Expired,
        }
    }
}

/// The characters of an optional text.
pub open spec fn text_of(t: Option<String>) -> Option<Seq<char>> {
    match t {
        Some(s) => Some(s@),
        None => None,
    }
}

/// A second value of the same optional text.
pub fn clone_text(t: &Option<String>) -> (r: Option<String>)
    ensures
        text_of(r) == text_of(*t),
{
    match t {
        Some(s) => Some(s.clone()),
        None => None,
    }
}

/// A registered account. It holds no balance: the balance of an account is
/// what its balance changes add up to.
#[derive(Debug, PartialEq)]
pub struct User {
    pub id: AccountId,
    pub wallet_address: String,
    pub created_at: u64,
    pub username: Option<String>,
    pub email: Option<String>,
}

/// What a `User` holds.
pub struct UserView {
    pub id: Seq<u8>,
    pub wallet_address: Seq<char>,
    pub created_at: u64,
    pub username: Option<Seq<char>>,
    pub email: Option<Seq<char>>,
}

impl View for User {
    type V = UserView;

    open spec fn view(&self) -> UserView {
        UserView {
            id: self.id@,
            wallet_address: self.wallet_address@,
            created_at: self.created_at,
            username: text_of(self.username),
            email: text_of(self.email),
        }
    }
}

impl Row for User {
    open spec fn stamp(row: UserView) -> u64 {
        row.created_at
    }

    fn duplicate(&self) -> (r: User) {
        self.clone()
    }

    fn time(&self) -> (t: u64) {
        self.created_at
    }
}

impl Clone for User {
    fn clone(&self) -> (r: User)
        ensures
            r@ == self@,
    {
        User {
            id: self.id.clone(),
            wallet_address: self.wallet_address.clone(),
            created_at: self.created_at,
            username: clone_text(&self.username),
            email: clone_text(&self.email),
        }
    }
}

/// One row of the payment log: a payment at one stage.
#[derive(Debug, PartialEq)]
pub struct Transaction {
    pub id: String,
    pub from: AccountId,
    pub to: AccountId,
    /// Token amount in minor units.
    pub amount: u64,
    pub fiat_currency: String,
    /// Fiat amount in millionths of the currency unit.
    pub fiat_amount: u64,
    pub icp_amount: u64,
    pub timestamp: u64,
    pub status: TransactionStatus,
    pub qr_id: String,
    pub transaction_hash: Option<String>,
    pub fee: u64,
}

/// What a `Transaction` holds.
pub struct TransactionView {
    pub id: Seq<char>,
    pub from: Seq<u8>,
    pub to: Seq<u8>,
    pub amount: u64,
    pub fiat_currency: Seq<char>,
    pub fiat_amount: u64,
    pub icp_amount: u64,
    pub timestamp: u64,
    pub status: TransactionStatus,
    pub qr_id: Seq<char>,
    pub transaction_hash: Option<Seq<char>>,
    pub fee: u64,
}

impl View for Transaction {
    type V = TransactionView;

    open spec fn view(&self) -> TransactionView {
        TransactionView {
            id: self.id@,
            from: self.from@,
            to: self.to@,
            amount: self.amount,
            fiat_currency: self.fiat_currency@,
            fiat_amount: self.fiat_amount,
            icp_amount: self.icp_amount,
            timestamp: self.timestamp,
            status: self.status,
            qr_id: self.qr_id@,
            transaction_hash: text_of(self.transaction_hash),
            fee: self.fee,
        }
    }
}

impl Row for Transaction {
    open spec fn stamp(row: TransactionView) -> u64 {
        row.timestamp
    }

    fn duplicate(&self) -> (r: Transaction) {
        self.clone()
    }

    fn time(&self) -> (t: u64) {
        self.timestamp
    }
}

impl Named for Transaction {
    open spec fn name(row: TransactionView) -> Seq<char> {
        row.id
    }

    open spec fn renamed(row: TransactionView, name: Seq<char>) -> TransactionView {
        TransactionView { id: name, ..row }
    }

    proof fn lemma_renamed(row: TransactionView, name: Seq<char>) {
    }

    fn identifier(&self) -> (id: &String) {
        &self.id
    }

    fn renamed_to(self, name: String) -> (r: Transaction) {
        Transaction {
            id: name,
            from: self.from,
            to: self.to,
            amount: self.amount,
            fiat_currency: self.fiat_currency,
            fiat_amount: self.fiat_amount,
            icp_amount: self.icp_amount,
            timestamp: self.timestamp,
            status: self.status,
            qr_id: self.qr_id,
            transaction_hash: self.transaction_hash,
            fee: self.fee,
        }
    }
}

impl Clone for Transaction {
    fn clone(&self) -> (r: Transaction)
        ensures
            r@ == self@,
    {
        Transaction {
            id: self.id.clone(),
            from: self.from.clone(),
            to: self.to.clone(),
            amount: self.amount,
            fiat_currency: self.fiat_currency.clone(),
            fiat_amount: self.fiat_amount,
            icp_amount: self.icp_amount,
            timestamp: self.timestamp,
            status: self.status,
            qr_id: self.qr_id.clone(),
            transaction_hash: clone_text(&self.transaction_hash),
            fee: self.fee,
        }
    }
}

/// One balance change of one account. Rows are only ever added.
#[derive(Debug, PartialEq)]
pub struct BalanceChangeLog {
    pub id: String,
    pub user_id: AccountId,
    pub change_type: BalanceChangeType,
    pub amount: u64,
    pub previous_balance: u64,
    pub new_balance: u64,
    pub timestamp: u64,
    pub reference_id: String,
    pub description: String,
}

/// What a `BalanceChangeLog` holds.
pub struct BalanceChangeView {
    pub id: Seq<char>,
    pub user_id: Seq<u8>,
    pub change_type: BalanceChangeType,
    pub amount: u64,
    pub previous_balance: u64,
    pub new_balance: u64,
    pub timestamp: u64,
    pub reference_id: Seq<char>,
    pub description: Seq<char>,
}

impl View for BalanceChangeLog {
    type V = BalanceChangeView;

    open spec fn view(&self) -> BalanceChangeView {
        BalanceChangeView {
            id: self.id@,
            user_id: self.user_id@,
            change_type: self.change_type,
            amount: self.amount,
            previous_balance: self.previous_balance,
            new_balance: self.new_balance,
            timestamp: self.timestamp,
            reference_id: self.reference_id@,
            description: self.description@,
        }
    }
}

impl Row for BalanceChangeLog {
    open spec fn stamp(row: BalanceChangeView) -> u64 {
        row.timestamp
    }

    fn duplicate(&self) -> (r: BalanceChangeLog) {
        self.clone()
    }

    fn time(&self) -> (t: u64) {
        self.timestamp
    }
}

impl Named for BalanceChangeLog {
    open spec fn name(row: BalanceChangeView) -> Seq<char> {
        row.id
    }

    open spec fn renamed(row: BalanceChangeView, name: Seq<char>) -> BalanceChangeView {
        BalanceChangeView { id: name, ..row }
    }

    proof fn lemma_renamed(row: BalanceChangeView, name: Seq<char>) {
    }

    fn identifier(&self) -> (id: &String) {
        &self.id
    }

    fn renamed_to(self, name: String) -> (r: BalanceChangeLog) {
        BalanceChangeLog {
            id: name,
            user_id: self.user_id,
            change_type: self.change_type,
            amount: self.amount,
            previous_balance: self.previous_balance,
            new_balance: self.new_balance,
            timestamp: self.timestamp,
            reference_id: self.reference_id,
            description: self.description,
        }
    }
}

impl Clone for BalanceChangeLog {
    fn clone(&self) -> (r: BalanceChangeLog)
        ensures
            r@ == self@,
    {
        BalanceChangeLog {
            id: self.id.clone(),
            user_id: self.user_id.clone(),
            change_type: self.change_type,
            amount: self.amount,
            previous_balance: self.previous_balance,
            new_balance: self.new_balance,
            timestamp: self.timestamp,
            reference_id: self.reference_id.clone(),
            description: self.description.clone(),
        }
    }
}

/// One use of a payment request. Rows are only ever added.
#[derive(Debug, PartialEq)]
pub struct QRUsageLog {
    pub id: String,
    pub qr_id: String,
    pub user_id: AccountId,
    pub used_by: AccountId,
    pub transaction_id: String,
    pub timestamp: u64,
    pub usage_type: QRUsageType,
}

/// What a `QRUsageLog` holds.
pub struct QRUsageView {
    pub id: Seq<char>,
    pub qr_id: Seq<char>,
    pub user_id: Seq<u8>,
    pub used_by: Seq<u8>,
    pub transaction_id: Seq<char>,
    pub timestamp: u64,
    pub usage_type: QRUsageType,
}

impl View for QRUsageLog {
    type V = QRUsageView;

    open spec fn view(&self) -> QRUsageView {
        QRUsageView {
            id: self.id@,
            qr_id: self.qr_id@,
            user_id: self.user_id@,
            used_by: self.used_by@,
            transaction_id: self.transaction_id@,
            timestamp: self.timestamp,
            usage_type: self.usage_type,
        }
    }
}

impl Row for QRUsageLog {
    open spec fn stamp(row: QRUsageView) -> u64 {
        row.timestamp
    }

    fn duplicate(&self) -> (r: QRUsageLog) {
        self.clone()
    }

    fn time(&self) -> (t: u64) {
        self.timestamp
    }
}

impl Named for QRUsageLog {
    open spec fn name(row: QRUsageView) -> Seq<char> {
        row.id
    }

    open spec fn renamed(row: QRUsageView, name: Seq<char>) -> QRUsageView {
        QRUsageView { id: name, ..row }
    }

    proof fn lemma_renamed(row: QRUsageView, name: Seq<char>) {
    }

    fn identifier(&self) -> (id: &String) {
        &self.id
    }

    fn renamed_to(self, name: String) -> (r: QRUsageLog) {
        QRUsageLog {
            id: name,
            qr_id: self.qr_id,
            user_id: self.user_id,
            used_by: self.used_by,
            transaction_id: self.transaction_id,
            timestamp: self.timestamp,
            usage_type: self.usage_type,
        }
    }
}

impl Clone for QRUsageLog {
    fn clone(&self) -> (r: QRUsageLog)
        ensures
            r@ == self@,
    {
        QRUsageLog {
            id: self.id.clone(),
            qr_id: self.qr_id.clone(),
            user_id: self.user_id.clone(),
            used_by: self.used_by.clone(),
            transaction_id: self.transaction_id.clone(),
            timestamp: self.timestamp,
            usage_type: self.usage_type,
        }
    }
}

/// A payment request: a fiat amount frozen into a token amount, payable
/// once until it expires.
#[derive(Debug, PartialEq)]
pub struct QRCode {
    pub id: String,
    pub user_id: AccountId,
    /// Fiat amount in millionths of the currency unit.
    pub fiat_amount: u64,
    pub fiat_currency: String,
    pub icp_amount: u64,
    pub expire_time: u64,
    pub created_at: u64,
    /// A hint for display. Whether a request was used is decided by the
    /// usage log alone.
    pub is_used: bool,
    pub description: Option<String>,
}

/// What a `QRCode` holds.
pub struct QRCodeView {
    pub id: Seq<char>,
    pub user_id: Seq<u8>,
    pub fiat_amount: u64,
    pub fiat_currency: Seq<char>,
    pub icp_amount: u64,
    pub expire_time: u64,
    pub created_at: u64,
    pub is_used: bool,
    pub description: Option<Seq<char>>,
}

impl View for QRCode {
    type V = QRCodeView;

    open spec fn view(&self) -> QRCodeView {
        QRCodeView {
            id: self.id@,
            user_id: self.user_id@,
            fiat_amount: self.fiat_amount,
            fiat_currency: self.fiat_currency@,
            icp_amount: self.icp_amount,
            expire_time: self.expire_time,
            created_at: self.created_at,
            is_used: self.is_used,
            description: text_of(self.description),
        }
    }
}

impl Row for QRCode {
    open spec fn stamp(row: QRCodeView) -> u64 {
        row.created_at
    }

    fn duplicate(&self) -> (r: QRCode) {
        self.clone()
    }

    fn time(&self) -> (t: u64) {
        self.created_at
    }
}

impl Clone for QRCode {
    fn clone(&self) -> (r: QRCode)
        ensures
            r@ == self@,
    {
        QRCode {
            id: self.id.clone(),
            user_id: self.user_id.clone(),
            fiat_amount: self.fiat_amount,
            fiat_currency: self.fiat_currency.clone(),
            icp_amount: self.icp_amount,
            expire_time: self.expire_time,
            created_at: self.created_at,
            is_used: self.is_used,
            description: clone_text(&self.description),
        }
    }
}

/// The price of one token in a fiat currency, as fetched at some time.
#[derive(Debug, PartialEq)]
pub struct ExchangeRate {
    pub currency: String,
    /// Fiat per token, in millionths of the currency unit.
    pub rate: u64,
    pub timestamp: u64,
    pub source: String,
}

/// What an `ExchangeRate` holds.
pub struct ExchangeRateView {
    pub currency: Seq<char>,
    pub rate: u64,
    pub timestamp: u64,
    pub source: Seq<char>,
}

impl View for ExchangeRate {
    type V = ExchangeRateView;

    open spec fn view(&self) -> ExchangeRateView {
        ExchangeRateView {
            currency: self.currency@,
            rate: self.rate,
            timestamp: self.timestamp,
            source: self.source@,
        }
    }
}

impl Row for ExchangeRate {
    open spec fn stamp(row: ExchangeRateView) -> u64 {
        row.timestamp
    }

    fn duplicate(&self) -> (r: ExchangeRate) {
        self.clone()
    }

    fn time(&self) -> (t: u64) {
        self.timestamp
    }
}

impl Clone for ExchangeRate {
    fn clone(&self) -> (r: ExchangeRate)
        ensures
            r@ == self@,
    {
        ExchangeRate {
            currency: self.currency.clone(),
            rate: self.rate,
            timestamp: self.timestamp,
            source: self.source.clone(),
        }
    }
}

/// A payment that was asked for and not yet settled.
#[derive(Debug)]
pub struct PaymentRequest {
    pub qr_id: String,
    pub payer: AccountId,
    pub amount: u64,
    pub timestamp: u64,
}

/// Totals of one account.
#[derive(Clone, Copy, Debug, PartialEq, Eq, Structural)]
pub struct UserStats {
    pub total_sent: u64,
    pub total_received: u64,
    pub transaction_count: u64,
    pub qr_codes_generated: u64,
    pub total_topup: u64,
    pub topup_count: u64,
    pub current_balance: u64,
}

/// Totals of the whole gateway.
#[derive(Clone, Copy, Debug, PartialEq, Eq, Structural)]
pub struct SystemStats {
    pub total_users: u64,
    pub total_transactions: u64,
    pub total_qr_codes: u64,
    pub cached_exchange_rates: u64,
    pub valid_exchange_rates: u64,
    pub expired_exchange_rates: u64,
    pub completed_transactions: u64,
    pub pending_transactions: u64,
    pub failed_transactions: u64,
    pub canister_balance: u64,
}

/// What a QRIS top-up shows to the payer.
#[derive(Debug, PartialEq)]
pub struct QRISData {
    pub qr_code_url: String,
    pub qr_code_data: String,
    pub merchant_id: String,
    pub expire_time: u64,
}

/// What a `QRISData` holds.
pub struct QRISDataView {
    pub qr_code_url: Seq<char>,
    pub qr_code_data: Seq<char>,
    pub merchant_id: Seq<char>,
    pub expire_time: u64,
}

impl View for QRISData {
    type V = QRISDataView;

    open spec fn view(&self) -> QRISDataView {
        QRISDataView {
            qr_code_url: self.qr_code_url@,
            qr_code_data: self.qr_code_data@,
            merchant_id: self.merchant_id@,
            expire_time: self.expire_time,
        }
    }
}

impl Clone for QRISData {
    fn clone(&self) -> (r: QRISData)
        ensures
            r@ == self@,
    {
        QRISData {
            qr_code_url: self.qr_code_url.clone(),
            qr_code_data: self.qr_code_data.clone(),
            merchant_id: self.merchant_id.clone(),
            expire_time: self.expire_time,
        }
    }
}

/// What is kept of the card that paid a top-up. The number is masked.
#[derive(Debug, PartialEq)]
pub struct CardData {
    pub card_number: String,
    pub card_type: String,
    pub payment_gateway: String,
    pub transaction_id: String,
}

/// What a `CardData` holds.
pub struct CardDataView {
    pub card_number: Seq<char>,
    pub card_type: Seq<char>,
    pub payment_gateway: Seq<char>,
    pub transaction_id: Seq<char>,
}

impl View for CardData {
    type V = CardDataView;

    open spec fn view(&self) -> CardDataView {
        CardDataView {
            card_number: self.card_number@,
            card_type: self.card_type@,
            payment_gateway: self.payment_gateway@,
            transaction_id: self.transaction_id@,
        }
    }
}

impl Clone for CardData {
    fn clone(&self) -> (r: CardData)
        ensures
            r@ == self@,
    {
        CardData {
            card_number: self.card_number.clone(),
            card_type: self.card_type.clone(),
            payment_gateway: self.payment_gateway.clone(),
            transaction_id: self.transaction_id.clone(),
        }
    }
}

/// What is kept of the wallet that pays a top-up.
#[derive(Debug, PartialEq)]
pub struct Web3Data {
    pub wallet_address: String,
    pub blockchain_network: String,
    pub transaction_hash: Option<String>,
    pub confirmation_count: u32,
}

/// What a `Web3Data` holds.
pub struct Web3DataView {
    pub wallet_address: Seq<char>,
    pub blockchain_network: Seq<char>,
    pub transaction_hash: Option<Seq<char>>,
    pub confirmation_count: u32,
}

impl View for Web3Data {
    type V = Web3DataView;

    open spec fn view(&self) -> Web3DataView {
        Web3DataView {
            wallet_address: self.wallet_address@,
            blockchain_network: self.blockchain_network@,
            transaction_hash: text_of(self.transaction_hash),
            confirmation_count: self.confirmation_count,
        }
    }
}

impl Clone for Web3Data {
    fn clone(&self) -> (r: Web3Data)
        ensures
            r@ == self@,
    {
        Web3Data {
            wallet_address: self.wallet_address.clone(),
            blockchain_network: self.blockchain_network.clone(),
            transaction_hash: clone_text(&self.transaction_hash),
            confirmation_count: self.confirmation_count,
        }
    }
}

/// The payload of a top-up: the one list that belongs to its method holds
/// one entry, the others none.
#[derive(Debug, PartialEq)]
pub struct TopUpPaymentData {
    pub qris_data: Vec<QRISData>,
    pub card_data: Vec<CardData>,
    pub web3_data: Vec<Web3Data>,
}

/// What a `TopUpPaymentData` holds.
pub struct TopUpPaymentDataView {
    pub qris_data: Seq<QRISDataView>,
    pub card_data: Seq<CardDataView>,
    pub web3_data: Seq<Web3DataView>,
}

impl View for TopUpPaymentData {
    type V = TopUpPaymentDataView;

    open spec fn view(&self) -> TopUpPaymentDataView {
        TopUpPaymentDataView {
            qris_data: crate::rows::views_of(self.qris_data@),
            card_data: crate::rows::views_of(self.card_data@),
            web3_data: crate::rows::views_of(self.web3_data@),
        }
    }
}

impl Clone for TopUpPaymentData {
    fn clone(&self) -> (r: TopUpPaymentData)
        ensures
            r@ == self@,
    {
        let mut qris_data: Vec<QRISData> = Vec::new();
        let mut i: usize = 0;
        while i < self.qris_data.len()
            invariant
                i <= self.qris_data.len(),
                qris_data.len() == i,
                forall|n: int| 0 <= n < i ==> qris_data[n]@ == self.qris_data[n]@,
            decreases self.qris_data.len() - i,
        {
            qris_data.push(self.qris_data[i].clone());
            i += 1;
        }
        let mut card_data: Vec<CardData> = Vec::new();
        let mut j: usize = 0;
        while j < self.card_data.len()
            invariant
                j <= self.card_data.len(),
                card_data.len() == j,
                forall|n: int| 0 <= n < j ==> card_data[n]@ == self.card_data[n]@,
            decreases self.card_data.len() - j,
        {
            card_data.push(self.card_data[j].clone());
            j += 1;
        }
        let mut web3_data: Vec<Web3Data> = Vec::new();
        let mut k: usize = 0;
        while k < self.web3_data.len()
            invariant
                k <= self.web3_data.len(),
                web3_data.len() == k,
                forall|n: int| 0 <= n < k ==> web3_data[n]@ == self.web3_data[n]@,
            decreases self.web3_data.len() - k,
        {
            web3_data.push(self.web3_data[k].clone());
            k += 1;
        }
        assert(crate::rows::views_of(qris_data@) =~= crate::rows::views_of(self.qris_data@));
        assert(crate::rows::views_of(card_data@) =~= crate::rows::views_of(self.card_data@));
        assert(crate::rows::views_of(web3_data@) =~= crate::rows::views_of(self.web3_data@));
        TopUpPaymentData { qris_data, card_data, web3_data }
    }
}

/// One row of the top-up log: a top-up at one stage.
#[derive(Debug, PartialEq)]
pub struct TopUpTransaction {
    pub id: String,
    pub user_id: AccountId,
    /// Token amount in minor units.
    pub amount: u64,
    /// Fiat amount in millionths of the currency unit.
    pub fiat_amount: u64,
    pub fiat_currency: String,
    pub payment_method: TopUpMethod,
    pub payment_data: TopUpPaymentData,
    pub status: TopUpStatus,
    pub created_at: u64,
    pub processed_at: Option<u64>,
    pub reference_id: String,
}

/// What a `TopUpTransaction` holds.
pub struct TopUpView {
    pub id: Seq<char>,
    pub user_id: Seq<u8>,
    pub amount: u64,
    pub fiat_amount: u64,
    pub fiat_currency: Seq<char>,
    pub payment_method: TopUpMethod,
    pub payment_data: TopUpPaymentDataView,
    pub status: TopUpStatus,
    pub created_at: u64,
    pub processed_at: Option<u64>,
    pub reference_id: Seq<char>,
}

impl View for TopUpTransaction {
    type V = TopUpView;

    open spec fn view(&self) -> TopUpView {
        TopUpView {
            id: self.id@,
            user_id: self.user_id@,
            amount: self.amount,
            fiat_amount: self.fiat_amount,
            fiat_currency: self.fiat_currency@,
            payment_method: self.payment_method,
            payment_data: self.payment_data@,
            status: self.status,
            created_at: self.created_at,
            processed_at: self.processed_at,
            reference_id: self.reference_id@,
        }
    }
}

impl Row for TopUpTransaction {
    open spec fn stamp(row: TopUpView) -> u64 {
        row.created_at
    }

    fn duplicate(&self) -> (r: TopUpTransaction) {
        self.clone()
    }

    fn time(&self) -> (t: u64) {
        self.created_at
    }
}

impl Named for TopUpTransaction {
    open spec fn name(row: TopUpView) -> Seq<char> {
        row.id
    }

    open spec fn renamed(row: TopUpView, name: Seq<char>) -> TopUpView {
        TopUpView { id: name, ..row }
    }

    proof fn lemma_renamed(row: TopUpView, name: Seq<char>) {
    }

    fn identifier(&self) -> (id: &String) {
        &self.id
    }

    fn renamed_to(self, name: String) -> (r: TopUpTransaction) {
        TopUpTransaction {
            id: name,
            user_id: self.user_id,
            amount: self.amount,
            fiat_amount: self.fiat_amount,
            fiat_currency: self.fiat_currency,
            payment_method: self.payment_method,
            payment_data: self.payment_data,
            status: self.status,
            created_at: self.created_at,
            processed_at: self.processed_at,
            reference_id: self.reference_id,
        }
    }
}

impl Clone for TopUpTransaction {
    fn clone(&self) -> (r: TopUpTransaction)
        ensures
            r@ == self@,
    {
        TopUpTransaction {
            id: self.id.clone(),
            user_id: self.user_id.clone(),
            amount: self.amount,
            fiat_amount: self.fiat_amount,
            fiat_currency: self.fiat_currency.clone(),
            payment_method: self.payment_method,
            payment_data: self.payment_data.clone(),
            status: self.status,
            created_at: self.created_at,
            processed_at: self.processed_at,
            reference_id: self.reference_id.clone(),
        }
    }
}

/// The balance of an account, as a number and as text.
#[derive(Debug)]
pub struct UserBalance {
    pub user_id: AccountId,
    pub balance: u64,
    pub formatted_balance: String,
    pub last_updated: u64,
}

/// A request for a top-up, as a caller sends it.
#[derive(Debug)]
pub struct TopUpRequest {
    /// Fiat amount in millionths of the currency unit.
    pub amount: u64,
    pub currency: String,
    pub payment_method: TopUpMethod,
    pub card_data: Option<CardDataInput>,
}

/// A card as its holder types it in.
#[derive(Debug)]
pub struct CardDataInput {
    pub card_number: String,
    pub expiry_month: String,
    pub expiry_year: String,
    pub cvv: String,
    pub cardholder_name: String,
}

/// Which notifications an account wants.
#[derive(Clone, Copy, Debug, PartialEq, Eq, Structural)]
pub struct NotificationSettings {
    pub email_notifications: bool,
    pub push_notifications: bool,
    pub transaction_alerts: bool,
    pub marketing_emails: bool,
}

/// What an account prefers. Kept one per account and changed in place.
#[derive(Debug, PartialEq)]
pub struct UserPreferences {
    pub user_id: AccountId,
    pub preferred_currency: String,
    pub notification_settings: NotificationSettings,
    pub ui_theme: String,
    pub language: String,
    pub timezone: String,
    pub updated_at: u64,
}

/// What a `UserPreferences` holds.
pub struct UserPreferencesView {
    pub user_id: Seq<u8>,
    pub preferred_currency: Seq<char>,
    pub notification_settings: NotificationSettings,
    pub ui_theme: Seq<char>,
    pub language: Seq<char>,
    pub timezone: Seq<char>,
    pub updated_at: u64,
}

impl View for UserPreferences {
    type V = UserPreferencesView;

    open spec fn view(&self) -> UserPreferencesView {
        UserPreferencesView {
            user_id: self.user_id@,
            preferred_currency: self.preferred_currency@,
            notification_settings: self.notification_settings,
            ui_theme: self.ui_theme@,
            language: self.language@,
            timezone: self.timezone@,
            updated_at: self.updated_at,
        }
    }
}

impl Row for UserPreferences {
    open spec fn stamp(row: UserPreferencesView) -> u64 {
        row.updated_at
    }

    fn duplicate(&self) -> (r: UserPreferences) {
        self.clone()
    }

    fn time(&self) -> (t: u64) {
        self.updated_at
    }
}

impl Clone for UserPreferences {
    fn clone(&self) -> (r: UserPreferences)
        ensures
            r@ == self@,
    {
        UserPreferences {
            user_id: self.user_id.clone(),
            preferred_currency: self.preferred_currency.clone(),
            notification_settings: self.notification_settings,
            ui_theme: self.ui_theme.clone(),
            language: self.language.clone(),
            timezone: self.timezone.clone(),
            updated_at: self.updated_at,
        }
    }
}

/// A session of an account. Kept one per identifier and changed in place.
#[derive(Debug, PartialEq)]
pub struct UserSession {
    pub user_id: AccountId,
    pub session_id: String,
    pub created_at: u64,
    pub last_activity: u64,
    pub ip_address: String,
    pub user_agent: String,
    pub is_active: bool,
}

/// What a `UserSession` holds.
pub struct UserSessionView {
    pub user_id: Seq<u8>,
    pub session_id: Seq<char>,
    pub created_at: u64,
    pub last_activity: u64,
    pub ip_address: Seq<char>,
    pub user_agent: Seq<char>,
    pub is_active: bool,
}

impl View for UserSession {
    type V = UserSessionView;

    open spec fn view(&self) -> UserSessionView {
        UserSessionView {
            user_id: self.user_id@,
            session_id: self.session_id@,
            created_at: self.created_at,
            last_activity: self.last_activity,
            ip_address: self.ip_address@,
            user_agent: self.user_agent@,
            is_active: self.is_active,
        }
    }
}

impl Row for UserSession {
    open spec fn stamp(row: UserSessionView) -> u64 {
        row.created_at
    }

    fn duplicate(&self) -> (r: UserSession) {
        self.clone()
    }

    fn time(&self) -> (t: u64) {
        self.created_at
    }
}

impl Clone for UserSession {
    fn clone(&self) -> (r: UserSession)
        ensures
            r@ == self@,
    {
        UserSession {
            user_id: self.user_id.clone(),
            session_id: self.session_id.clone(),
            created_at: self.created_at,
            last_activity: self.last_activity,
            ip_address: self.ip_address.clone(),
            user_agent: self.user_agent.clone(),
            is_active: self.is_active,
        }
    }
}

/// A wallet secret kept under a password.
#[derive(Debug)]
pub struct EncryptedWalletIdentity {
    pub email: String,
    pub encrypted_secret_key: String,
    pub wallet_name: String,
    pub created_at: u64,
    pub last_accessed: u64,
    pub access_count: u64,
}

/// What an `EncryptedWalletIdentity` holds.
pub struct WalletIdentityView {
    pub email: Seq<char>,
    pub encrypted_secret_key: Seq<char>,
    pub wallet_name: Seq<char>,
    pub created_at: u64,
    pub last_accessed: u64,
    pub access_count: u64,
}

impl View for EncryptedWalletIdentity {
    type V = WalletIdentityView;

    open spec fn view(&self) -> WalletIdentityView {
        WalletIdentityView {
            email: self.email@,
            encrypted_secret_key: self.encrypted_secret_key@,
            wallet_name: self.wallet_name@,
            created_at: self.created_at,
            last_accessed: self.last_accessed,
            access_count: self.access_count,
        }
    }
}

impl Clone for EncryptedWalletIdentity {
    fn clone(&self) -> (r: EncryptedWalletIdentity)
        ensures
            r@ == self@,
    {
        EncryptedWalletIdentity {
            email: self.email.clone(),
            encrypted_secret_key: self.encrypted_secret_key.clone(),
            wallet_name: self.wallet_name.clone(),
            created_at: self.created_at,
            last_accessed: self.last_accessed,
            access_count: self.access_count,
        }
    }
}

/// A wallet secret given back to its owner.
#[derive(Debug)]
pub struct WalletIdentityResult {
    pub secret_key_hex: String,
    pub wallet_name: String,
    pub created_at: u64,
    pub last_accessed: u64,
    pub access_count: u64,
}

/// One entry of the combined activity list: a payment row or a top-up row.
#[derive(Debug)]
pub struct NetworkTransaction {
    pub id: String,
    pub transaction_type: NetworkTransactionType,
    pub from_user: Option<AccountId>,
    pub to_user: Option<AccountId>,
    pub amount: u64,
    /// Fiat amount in millionths of the currency unit.
    pub fiat_amount: u64,
    pub fiat_currency: String,
    pub icp_amount: u64,
    pub timestamp: u64,
    pub status: NetworkTransactionStatus,
    pub reference_id: String,
    pub transaction_hash: Option<String>,
    pub fee: Option<u64>,
    pub description: String,
}

/// An optional identity as its bytes.
pub open spec fn account_of(id: Option<AccountId>) -> Option<Seq<u8>> {
    match id {
        Some(id) => Some(id@),
        None => None,
    }
}

/// What a `NetworkTransaction` holds.
pub struct NetworkTransactionView {
    pub id: Seq<char>,
    pub transaction_type: NetworkTransactionType,
    pub from_user: Option<Seq<u8>>,
    pub to_user: Option<Seq<u8>>,
    pub amount: u64,
    pub fiat_amount: u64,
    pub fiat_currency: Seq<char>,
    pub icp_amount: u64,
    pub timestamp: u64,
    pub status: NetworkTransactionStatus,
    pub reference_id: Seq<char>,
    pub transaction_hash: Option<Seq<char>>,
    pub fee: Option<u64>,
    pub description: Seq<char>,
}

impl View for NetworkTransaction {
    type V = NetworkTransactionView;

    open spec fn view(&self) -> NetworkTransactionView {
        NetworkTransactionView {
            id: self.id@,
            transaction_type: self.transaction_type,
            from_user: account_of(self.from_user),
            to_user: account_of(self.to_user),
            amount: self.amount,
            fiat_amount: self.fiat_amount,
            fiat_currency: self.fiat_currency@,
            icp_amount: self.icp_amount,
            timestamp: self.timestamp,
            status: self.status,
            reference_id: self.reference_id@,
            transaction_hash: text_of(self.transaction_hash),
            fee: self.fee,
            description: self.description@,
        }
    }
}

impl Row for NetworkTransaction {
    open spec fn stamp(row: NetworkTransactionView) -> u64 {
        row.timestamp
    }

    fn duplicate(&self) -> (r: NetworkTransaction) {
        self.clone()
    }

    fn time(&self) -> (t: u64) {
        self.timestamp
    }
}

impl Clone for NetworkTransaction {
    fn clone(&self) -> (r: NetworkTransaction)
        ensures
            r@ == self@,
    {
        NetworkTransaction {
            id: self.id.clone(),
            transaction_type: self.transaction_type,
            from_user: match &self.from_user {
                Some(id) => Some(id.clone()),
                None => None,
            },
            to_user: match &self.to_user {
                Some(id) => Some(id.clone()),
                None => None,
            },
            amount: self.amount,
            fiat_amount: self.fiat_amount,
            fiat_currency: self.fiat_currency.clone(),
            icp_amount: self.icp_amount,
            timestamp: self.timestamp,
            status: self.status,
            reference_id: self.reference_id.clone(),
            transaction_hash: clone_text(&self.transaction_hash),
            fee: self.fee,
            description: self.description.clone(),
        }
    }
}

} // verus!
