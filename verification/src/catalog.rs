//! Categories, tags, budgets, goals, investments and loans.
use crate::error::ApiError;
use vstd::prelude::*;

verus! {

/// A spending or income category.
#[derive(Debug)]
pub struct Category {
    pub id: String,
    pub name: String,
    pub parent_id: Option<String>,
    pub icon: Option<String>,
    pub color: Option<String>,
    pub kind: String,
    pub archived: bool,
    pub created_at: String,
    pub updated_at: String,
}

/// Request to create a category.
#[derive(Debug)]
pub struct CreateCategory {
    pub name: String,
    pub kind: String,
    pub parent_id: Option<String>,
    pub icon: Option<String>,
    pub color: Option<String>,
}

/// Request to edit a category.
#[derive(Debug)]
pub struct UpdateCategory {
    pub name: Option<String>,
    pub kind: Option<String>,
    pub icon: Option<String>,
    pub color: Option<String>,
    pub archived: Option<bool>,
}

/// The categories of a user.
#[derive(Debug)]
pub struct CategoryList {
    pub items: Vec<Category>,
}

/// A label attached to transactions.
#[derive(Debug)]
pub struct Tag {
    pub id: String,
    pub name: String,
    pub color: Option<String>,
    pub created_at: String,
    pub updated_at: String,
}

/// Request to create a tag.
#[derive(Debug)]
pub struct CreateTag {
    pub name: String,
    pub color: Option<String>,
}

/// The tags of a user.
#[derive(Debug)]
pub struct TagList {
    pub items: Vec<Tag>,
}

/// The estimate of spending in a category for a month.
#[derive(Debug)]
pub struct Budget {
    pub id: String,
    pub category_id: String,
    pub month: String,
    pub estimated_amount: i64,
    pub currency: String,
    pub created_at: String,
    pub updated_at: String,
}

/// Request to set the budget of a category for a month.
#[derive(Debug)]
pub struct CreateBudget {
    pub category_id: String,
    pub month: String,
    pub estimated_amount: i64,
    pub currency: String,
}

/// Request to change a budget's estimate.
#[derive(Debug)]
pub struct UpdateBudget {
    pub estimated_amount: i64,
}

/// A category's budget and spending in a month.
#[derive(Debug)]
pub struct BudgetRow {
    pub category_id: String,
    pub category_name: String,
    pub icon: Option<String>,
    pub color: Option<String>,
    pub budget_id: Option<String>,
    pub estimated: i64,
    pub spent: i64,
    pub difference: i64,
}

/// The budget rows of a month.
#[derive(Debug)]
pub struct BudgetMonth {
    pub month: String,
    pub items: Vec<BudgetRow>,
}

impl BudgetRow {
    /// A budget row; the difference is what is left of the estimate.
    pub fn new(
        category_id: String,
        category_name: String,
        icon: Option<String>,
        color: Option<String>,
        budget_id: Option<String>,
        estimated: i64,
        spent: i64,
    ) -> (r: BudgetRow)
        requires
            i64::MIN <= estimated - spent <= i64::MAX,
        ensures
            r.category_id == category_id,
            r.category_name == category_name,
            r.icon == icon,
            r.color == color,
            r.budget_id == budget_id,
            r.estimated == estimated,
            r.spent == spent,
            r.difference == estimated - spent,
    {
        BudgetRow {
            category_id,
            category_name,
            icon,
            color,
            budget_id,
            estimated,
            spent,
            difference: estimated - spent,
        }
    }
}

/// A savings goal.
#[derive(Debug)]
pub struct Goal {
    pub id: String,
    pub name: String,
    pub target_value: i64,
    pub currency: String,
    pub current_value: i64,
    pub account_id: Option<String>,
    pub target_date: Option<String>,
    pub created_at: String,
    pub updated_at: String,
}

/// Request to create a goal.
#[derive(Debug)]
pub struct CreateGoal {
    pub name: String,
    pub target_value: i64,
    pub currency: String,
    pub account_id: Option<String>,
    pub target_date: Option<String>,
}

/// The goals of a user.
#[derive(Debug)]
pub struct GoalList {
    pub items: Vec<Goal>,
}

/// An investment held in an account.
#[derive(Debug)]
pub struct Investment {
    pub id: String,
    pub account_id: String,
    pub name: String,
    pub investment_type: String,
    pub principal: i64,
    pub current_value: i64,
    pub currency: String,
    pub rate_index: Option<String>,
    pub rate_spread: Option<String>,
    pub purchase_date: String,
    pub expiration_date: Option<String>,
    pub archived: bool,
    pub created_at: String,
    pub updated_at: String,
}

/// Request to create an investment.
#[derive(Debug)]
pub struct CreateInvestment {
    pub account_id: String,
    pub name: String,
    pub investment_type: String,
    pub principal: i64,
    pub currency: String,
    pub rate_index: Option<String>,
    pub rate_spread: Option<String>,
    pub purchase_date: String,
    pub expiration_date: Option<String>,
}

/// Request to record an investment's current value.
#[derive(Debug)]
pub struct UpdateValue {
    pub current_value: i64,
}

/// The investments of a user.
#[derive(Debug)]
pub struct InvestmentList {
    pub items: Vec<Investment>,
}

/// A loan repaid in installments.
#[derive(Debug)]
pub struct Loan {
    pub id: String,
    pub account_id: String,
    pub description: String,
    pub total_value: i64,
    pub currency: String,
    pub interest_rate: String,
    pub installment_value: i64,
    pub installment_count: i64,
    pub paid_installments: i64,
    pub start_date: String,
    pub first_due_date: String,
    pub archived: bool,
    pub created_at: String,
    pub updated_at: String,
}

/// Request to create a loan.
#[derive(Debug)]
pub struct CreateLoan {
    pub account_id: String,
    pub description: String,
    pub total_value: i64,
    pub currency: String,
    pub interest_rate: String,
    pub installment_value: i64,
    pub installment_count: i64,
    pub start_date: String,
    pub first_due_date: String,
}

/// A payment of a loan installment.
#[derive(Debug)]
pub struct PayInstallment {
    pub account_id: String,
    pub tx_date: String,
    pub value: i64,
}

/// The loans of a user.
#[derive(Debug)]
pub struct LoanList {
    pub items: Vec<Loan>,
}

/// An operation that succeeds when the row it targets was changed, and is
/// `NotFound` otherwise.
pub fn require_row_affected(rows_affected: u64) -> (r: Result<(), ApiError>)
    ensures
        r is Ok <==> rows_affected > 0,
        r is Err ==> r matches Err(ApiError::NotFound),
{
    if rows_affected == 0 {
        Err(ApiError::NotFound)
    } else {
        Ok(())
    }
}

} // verus!
