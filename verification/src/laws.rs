//! Laws the rendering obeys: an accepted field value reappears verbatim in
//! the rendered markup, and rendering is deterministic.

use vstd::prelude::*;

use crate::markup::spec_attr;
use crate::markup::spec_bool_text;
use crate::markup::spec_element;
use crate::markup::spec_opt_text_element;
use crate::markup::spec_text_element;
use crate::payment_method::PaymentMethod;
use crate::payment_method::PaymentMethodSEPADirectDebit;
use crate::payment_method::PaymentMethodUniversalBankTransaction;
use crate::payment_method::PaymentMethodUniversalBankTransactionBeneficiaryAccount;
use crate::payment_method::spec_accounts_xml;
use crate::payment_method::spec_opt_bank_code_xml;
use crate::payment_method::spec_payment_reference_xml;

verus! {

/// `needle` stands in `hay` as the contiguous block starting at `i`.
pub open spec fn occurs_at(hay: Seq<char>, needle: Seq<char>, i: int) -> bool {
    0 <= i && i + needle.len() <= hay.len() && hay.subrange(i, i + needle.len()) == needle
}

/// `needle` stands somewhere in `hay` as a contiguous block.
pub open spec fn occurs_in(hay: Seq<char>, needle: Seq<char>) -> bool {
    exists|i: int| occurs_at(hay, needle, i)
}

proof fn lemma_occurs_mid(a: Seq<char>, b: Seq<char>, c: Seq<char>)
    ensures
        occurs_in(a + b + c, b),
{
    assert((a + b + c).subrange(a.len() as int, a.len() + b.len() as int) =~= b);
    assert(occurs_at(a + b + c, b, a.len() as int));
}

/// The body of an element stands verbatim in any text that embeds the
/// element between a prefix and a suffix.
proof fn lemma_element_body_occurs(
    pre: Seq<char>,
    tag: Seq<char>,
    attrs: Seq<char>,
    body: Seq<char>,
    post: Seq<char>,
)
    ensures
        occurs_in(pre + spec_element(tag, attrs, body) + post, body),
{
    let a = pre + "<"@ + tag + attrs + ">"@;
    let c = "</"@ + tag + ">"@ + post;
    assert(pre + spec_element(tag, attrs, body) + post =~= a + body + c);
    lemma_occurs_mid(a, body, c);
}

/// An accepted IBAN round-trips verbatim into the rendered direct debit.
#[verifier::rlimit(100)]
pub proof fn lemma_sepa_iban_rendered(d: PaymentMethodSEPADirectDebit)
    requires
        d.iban is Some,
    ensures
        occurs_in(d.spec_xml(), d.iban->0@),
{
    let tag = "SEPADirectDebit"@;
    let t1 = spec_text_element(
        "Type"@,
        match d.direct_debit_type {
            Some(t) => t@,
            None => "B2C"@,
        },
    );
    let pre = "<"@ + tag + Seq::<char>::empty() + ">"@ + t1 + spec_opt_text_element("BIC"@, d.bic);
    let post = spec_opt_text_element("BankAccountOwner"@, d.bank_account_owner)
        + spec_opt_text_element("CreditorID"@, d.creditor_id) + spec_opt_text_element(
        "MandateReference"@,
        d.mandate_reference,
    ) + spec_opt_text_element("DebitCollectionDate"@, d.debit_collection_date) + ("</"@ + tag
        + ">"@);
    assert(d.spec_xml() =~= pre + spec_text_element("IBAN"@, d.iban->0@) + post);
    lemma_element_body_occurs(pre, "IBAN"@, Seq::empty(), d.iban->0@, post);
}

/// An accepted bank-account owner round-trips verbatim into the rendered
/// direct debit.
#[verifier::rlimit(100)]
pub proof fn lemma_sepa_bank_account_owner_rendered(d: PaymentMethodSEPADirectDebit)
    requires
        d.bank_account_owner is Some,
    ensures
        occurs_in(d.spec_xml(), d.bank_account_owner->0@),
{
    let tag = "SEPADirectDebit"@;
    let t1 = spec_text_element(
        "Type"@,
        match d.direct_debit_type {
            Some(t) => t@,
            None => "B2C"@,
        },
    );
    let pre = "<"@ + tag + Seq::<char>::empty() + ">"@ + t1 + spec_opt_text_element("BIC"@, d.bic)
        + spec_opt_text_element("IBAN"@, d.iban);
    let post = spec_opt_text_element("CreditorID"@, d.creditor_id) + spec_opt_text_element(
        "MandateReference"@,
        d.mandate_reference,
    ) + spec_opt_text_element("DebitCollectionDate"@, d.debit_collection_date) + ("</"@ + tag
        + ">"@);
    assert(d.spec_xml() =~= pre + spec_text_element("BankAccountOwner"@, d.bank_account_owner->0@)
        + post);
    lemma_element_body_occurs(pre, "BankAccountOwner"@, Seq::empty(), d.bank_account_owner->0@, post);
}

/// An accepted creditor id round-trips verbatim into the rendered direct
/// debit.
#[verifier::rlimit(100)]
pub proof fn lemma_sepa_creditor_id_rendered(d: PaymentMethodSEPADirectDebit)
    requires
        d.creditor_id is Some,
    ensures
        occurs_in(d.spec_xml(), d.creditor_id->0@),
{
    let tag = "SEPADirectDebit"@;
    let t1 = spec_text_element(
        "Type"@,
        match d.direct_debit_type {
            Some(t) => t@,
            None => "B2C"@,
        },
    );
    let pre = "<"@ + tag + Seq::<char>::empty() + ">"@ + t1 + spec_opt_text_element("BIC"@, d.bic)
        + spec_opt_text_element("IBAN"@, d.iban) + spec_opt_text_element(
        "BankAccountOwner"@,
        d.bank_account_owner,
    );
    let post = spec_opt_text_element("MandateReference"@, d.mandate_reference)
        + spec_opt_text_element("DebitCollectionDate"@, d.debit_collection_date) + ("</"@ + tag
        + ">"@);
    assert(d.spec_xml() =~= pre + spec_text_element("CreditorID"@, d.creditor_id->0@) + post);
    lemma_element_body_occurs(pre, "CreditorID"@, Seq::empty(), d.creditor_id->0@, post);
}

/// An accepted mandate reference round-trips verbatim into the rendered
/// direct debit.
#[verifier::rlimit(100)]
pub proof fn lemma_sepa_mandate_reference_rendered(d: PaymentMethodSEPADirectDebit)
    requires
        d.mandate_reference is Some,
    ensures
        occurs_in(d.spec_xml(), d.mandate_reference->0@),
{
    let tag = "SEPADirectDebit"@;
    let t1 = spec_text_element(
        "Type"@,
        match d.direct_debit_type {
            Some(t) => t@,
            None => "B2C"@,
        },
    );
    let pre = "<"@ + tag + Seq::<char>::empty() + ">"@ + t1 + spec_opt_text_element("BIC"@, d.bic)
        + spec_opt_text_element("IBAN"@, d.iban) + spec_opt_text_element(
        "BankAccountOwner"@,
        d.bank_account_owner,
    ) + spec_opt_text_element("CreditorID"@, d.creditor_id);
    let post = spec_opt_text_element("DebitCollectionDate"@, d.debit_collection_date) + ("</"@ + tag
        + ">"@);
    assert(d.spec_xml() =~= pre + spec_text_element("MandateReference"@, d.mandate_reference->0@)
        + post);
    lemma_element_body_occurs(pre, "MandateReference"@, Seq::empty(), d.mandate_reference->0@, post);
}

/// An accepted bank name round-trips verbatim into the rendered beneficiary
/// account.
#[verifier::rlimit(100)]
pub proof fn lemma_account_bank_name_rendered(
    a: PaymentMethodUniversalBankTransactionBeneficiaryAccount,
)
    requires
        a.bank_name is Some,
    ensures
        occurs_in(a.spec_xml(), a.bank_name->0@),
{
    let tag = "BeneficiaryAccount"@;
    let pre = "<"@ + tag + Seq::<char>::empty() + ">"@;
    let post = spec_opt_bank_code_xml(a.bank_code) + spec_opt_text_element("BIC"@, a.bic)
        + spec_opt_text_element("BankAccountNr"@, a.bank_account_number) + spec_opt_text_element(
        "IBAN"@,
        a.iban,
    ) + spec_opt_text_element("BankAccountOwner"@, a.bank_account_owner) + ("</"@ + tag + ">"@);
    assert(a.spec_xml() =~= pre + spec_text_element("BankName"@, a.bank_name->0@) + post);
    lemma_element_body_occurs(pre, "BankName"@, Seq::empty(), a.bank_name->0@, post);
}

/// An accepted IBAN round-trips verbatim into the rendered beneficiary
/// account.
#[verifier::rlimit(100)]
pub proof fn lemma_account_iban_rendered(
    a: PaymentMethodUniversalBankTransactionBeneficiaryAccount,
)
    requires
        a.iban is Some,
    ensures
        occurs_in(a.spec_xml(), a.iban->0@),
{
    let tag = "BeneficiaryAccount"@;
    let pre = "<"@ + tag + Seq::<char>::empty() + ">"@ + spec_opt_text_element(
        "BankName"@,
        a.bank_name,
    ) + spec_opt_bank_code_xml(a.bank_code) + spec_opt_text_element("BIC"@, a.bic)
        + spec_opt_text_element("BankAccountNr"@, a.bank_account_number);
    let post = spec_opt_text_element("BankAccountOwner"@, a.bank_account_owner) + ("</"@ + tag
        + ">"@);
    assert(a.spec_xml() =~= pre + spec_text_element("IBAN"@, a.iban->0@) + post);
    lemma_element_body_occurs(pre, "IBAN"@, Seq::empty(), a.iban->0@, post);
}

/// An accepted bank-account owner round-trips verbatim into the rendered
/// beneficiary account.
pub proof fn lemma_account_bank_account_owner_rendered(
    a: PaymentMethodUniversalBankTransactionBeneficiaryAccount,
)
    requires
        a.bank_account_owner is Some,
    ensures
        occurs_in(a.spec_xml(), a.bank_account_owner->0@),
{
    let tag = "BeneficiaryAccount"@;
    let pre = "<"@ + tag + Seq::<char>::empty() + ">"@ + spec_opt_text_element(
        "BankName"@,
        a.bank_name,
    ) + spec_opt_bank_code_xml(a.bank_code) + spec_opt_text_element("BIC"@, a.bic)
        + spec_opt_text_element("BankAccountNr"@, a.bank_account_number) + spec_opt_text_element(
        "IBAN"@,
        a.iban,
    );
    let post = "</"@ + tag + ">"@;
    assert(a.spec_xml() =~= pre + spec_text_element("BankAccountOwner"@, a.bank_account_owner->0@)
        + post);
    lemma_element_body_occurs(pre, "BankAccountOwner"@, Seq::empty(), a.bank_account_owner->0@, post);
}

/// An accepted payment reference round-trips verbatim into the rendered
/// universal bank transaction.
pub proof fn lemma_transaction_payment_reference_rendered(
    t: PaymentMethodUniversalBankTransaction,
)
    requires
        t.payment_reference is Some,
    ensures
        occurs_in(t.spec_xml(), t.payment_reference->0@),
{
    let tag = "UniversalBankTransaction"@;
    let outer_attrs = spec_attr(
        "ConsolidatorPayable"@,
        spec_bool_text(t.consolidator_payable.unwrap_or(false)),
    );
    let accounts = match t.beneficiary_account {
        Some(accounts) => spec_accounts_xml(accounts@),
        None => Seq::<char>::empty(),
    };
    let pr_attrs = match t.payment_reference_checksum {
        Some(cs) => spec_attr("CheckSum"@, cs@),
        None => Seq::<char>::empty(),
    };
    let pre = "<"@ + tag + outer_attrs + ">"@ + accounts;
    let post = "</"@ + tag + ">"@;
    assert(spec_payment_reference_xml(t.payment_reference, t.payment_reference_checksum)
        == spec_element("PaymentReference"@, pr_attrs, t.payment_reference->0@));
    assert(t.spec_xml() =~= pre + spec_element("PaymentReference"@, pr_attrs, t.payment_reference->0@)
        + post);
    lemma_element_body_occurs(pre, "PaymentReference"@, pr_attrs, t.payment_reference->0@, post);
}

/// Rendering is deterministic: any two renderings of one record agree
/// character for character, as `to_xml` pins its result to `spec_xml`.
pub proof fn lemma_render_deterministic(m: PaymentMethod, r1: String, r2: String)
    requires
        r1@ == m.spec_xml(),
        r2@ == m.spec_xml(),
    ensures
        r1@ == r2@,
{
}

} // verus!
