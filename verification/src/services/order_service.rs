//! The rules around purchase orders: who may see, move and rate an order.
//!
//! Each rule comes in two halves around the one storage statement it
//! guards: what to run, decided from the request alone, and what to tell
//! the caller, decided from the number of rows the statement changed.

use crate::errors::{AppError, AppErrorView};
use crate::models::order::UpdateOrderStatusDto;
use crate::models::rating::RateOrderDto;
use crate::models::user::Claims;
use vstd::prelude::*;

verus! {

/// The side of a deal that a company is on.
#[derive(Clone, Copy, Debug, PartialEq, Eq, Structural)]
pub enum OrderSide {
    Buyer,
    Supplier,
}

/// Which orders a user gets to see: those of its company, on its side.
pub struct OrdersQuery {
    pub side: OrderSide,
    pub company_id: i32,
}

/// A status change that passed the checks and is ready to run.
pub struct StatusUpdate {
    pub order_id: i32,
    /// Only an order of this supplier may change.
    pub supplier_company_id: i32,
    pub status: String,
    /// Whether the order's completion time is to be set as well.
    pub stamps_completion: bool,
}

/// A rating that passed the checks and is ready to run. It applies only
/// to a completed, not yet rated order of the buyer.
pub struct OrderRating {
    pub order_id: i32,
    pub buyer_company_id: i32,
    pub quality_rating: u8,
    pub communication_rating: u8,
}

/// The statuses a supplier may move an order to.
pub open spec fn is_settable_status(status: Seq<char>) -> bool {
    status == "IN_PRODUCTION"@ || status == "SHIPPED"@ || status == "COMPLETED"@
}

/// A mark from 1 to 5.
pub open spec fn is_mark(rating: u8) -> bool {
    1 <= rating <= 5
}

fn text_is(text: &String, literal: &str) -> (same: bool)
    ensures
        same == (text@ == literal@),
{
    let other = String::from_str(literal);
    *text == other
}

/// Which orders to list for the caller: a buyer sees the orders it
/// placed, everybody else the orders placed with its company.
pub fn get_orders_for_user(claims: &Claims) -> (query: OrdersQuery)
    ensures
        query.company_id == claims.company_id,
        query.side == (if claims.company_type@ == "BUYER"@ {
            OrderSide::Buyer
        } else {
            OrderSide::Supplier
        }),
{
    let side = if text_is(&claims.company_type, "BUYER") {
        OrderSide::Buyer
    } else {
        OrderSide::Supplier
    };
    OrdersQuery { side, company_id: claims.company_id }
}

/// Checks a status change. Only a supplier may ask for one, and only for
/// one of the three statuses that follow acceptance.
pub fn update_order_status(order_id: i32, dto: UpdateOrderStatusDto, claims: &Claims) -> (result:
    Result<StatusUpdate, AppError>)
    ensures
        match result {
            Ok(update) => {
                &&& claims.company_type@ == "SUPPLIER"@
                &&& is_settable_status(dto.status@)
                &&& update.order_id == order_id
                &&& update.supplier_company_id == claims.company_id
                &&& update.status == dto.status
                &&& update.stamps_completion == (dto.status@ == "COMPLETED"@)
            },
            Err(error) => if claims.company_type@ != "SUPPLIER"@ {
                error@ == AppErrorView::BadRequest("Only suppliers can update order status."@)
            } else {
                &&& !is_settable_status(dto.status@)
                &&& error@ == AppErrorView::BadRequest("Invalid status provided."@)
            },
        },
{
    if !text_is(&claims.company_type, "SUPPLIER") {
        return Err(
            AppError::BadRequest(String::from_str("Only suppliers can update order status.")),
        );
    }
    let completed = text_is(&dto.status, "COMPLETED");
    if !(text_is(&dto.status, "IN_PRODUCTION") || text_is(&dto.status, "SHIPPED") || completed) {
        return Err(AppError::BadRequest(String::from_str("Invalid status provided.")));
    }
    Ok(
        StatusUpdate {
            order_id,
            supplier_company_id: claims.company_id,
            status: dto.status,
            stamps_completion: completed,
        },
    )
}

/// What to report after a status change ran: an order that did not change
/// does not exist or is not the supplier's.
pub fn status_update_outcome(rows_affected: u64) -> (result: Result<u64, AppError>)
    ensures
        match result {
            Ok(rows) => rows_affected > 0 && rows == rows_affected,
            Err(error) => rows_affected == 0 && error@ == AppErrorView::BadRequest(
                "Order not found or you are not authorized to update it."@,
            ),
        },
{
    if rows_affected == 0 {
        return Err(
            AppError::BadRequest(
                String::from_str("Order not found or you are not authorized to update it."),
            ),
        );
    }
    Ok(rows_affected)
}

/// Checks a rating. Only a buyer may rate, and both marks must be from 1
/// to 5.
pub fn rate_order(order_id: i32, dto: RateOrderDto, claims: &Claims) -> (result: Result<
    OrderRating,
    AppError,
>)
    ensures
        match result {
            Ok(rating) => {
                &&& claims.company_type@ == "BUYER"@
                &&& is_mark(dto.quality_rating)
                &&& is_mark(dto.communication_rating)
                &&& rating.order_id == order_id
                &&& rating.buyer_company_id == claims.company_id
                &&& rating.quality_rating == dto.quality_rating
                &&& rating.communication_rating == dto.communication_rating
            },
            Err(error) => if claims.company_type@ != "BUYER"@ {
                error@ == AppErrorView::BadRequest("Only buyers can rate orders."@)
            } else {
                &&& !(is_mark(dto.quality_rating) && is_mark(dto.communication_rating))
                &&& error@ == AppErrorView::BadRequest("Rating must be between 1 and 5."@)
            },
        },
{
    if !text_is(&claims.company_type, "BUYER") {
        return Err(AppError::BadRequest(String::from_str("Only buyers can rate orders.")));
    }
    if dto.quality_rating < 1 || dto.quality_rating > 5 || dto.communication_rating < 1
        || dto.communication_rating > 5 {
        return Err(AppError::BadRequest(String::from_str("Rating must be between 1 and 5.")));
    }
    Ok(
        OrderRating {
            order_id,
            buyer_company_id: claims.company_id,
            quality_rating: dto.quality_rating,
            communication_rating: dto.communication_rating,
        },
    )
}

/// What to report after a rating ran: an order that did not change is not
/// completed, is rated already, or is not the buyer's.
pub fn rating_outcome(rows_affected: u64) -> (result: Result<u64, AppError>)
    ensures
        match result {
            Ok(rows) => rows_affected > 0 && rows == rows_affected,
            Err(error) => rows_affected == 0 && error@ == AppErrorView::BadRequest(
                "Order cannot be rated. It might not be completed, already rated, or you are not the owner."@,
            ),
        },
{
    if rows_affected == 0 {
        return Err(
            AppError::BadRequest(
                String::from_str(
                    "Order cannot be rated. It might not be completed, already rated, or you are not the owner.",
                ),
            ),
        );
    }
    Ok(rows_affected)
}

} // verus!
