use vstd::prelude::*;
use crate::syntax::{Diag, FnInput, FnSyntax, MacroError, TypeSyntax, diag, diag_result, macro_error};

verus! {

/// The node of the first receiver among the first `k` inputs, if any.
pub open spec fn first_receiver(inputs: Seq<FnInput>, k: int) -> Option<usize>
    decreases k,
{
    if k <= 0 {
        None
    } else {
        match first_receiver(inputs, k - 1) {
            Some(s) => Some(s),
            None => match inputs[k - 1] {
                FnInput::Receiver { span } => Some(span),
                _ => None,
            },
        }
    }
}

/// Whether a type is the unit type `()`.
pub open spec fn is_unit(ty: TypeSyntax) -> bool {
    ty matches TypeSyntax::Tuple { len, .. } && len == 0
}

/// What the signature check says of a function: the first rule it breaks, in the order
/// async, const, variadic, no inputs, a receiver, no result, a unit result.
pub open spec fn spec_check_signature(func: &FnSyntax) -> Result<(), Diag> {
    if func.asyncness is Some {
        Err(diag(func.asyncness->0, "#[differentiable] functions cannot be async"@))
    } else if func.constness is Some {
        Err(diag(func.constness->0, "#[differentiable] functions cannot be const"@))
    } else if func.variadic is Some {
        Err(diag(func.variadic->0, "#[differentiable] functions cannot be variadic"@))
    } else if func.inputs@.len() == 0 {
        Err(
            diag(
                func.ident_span,
                "#[differentiable] functions must take at least one tensor input"@,
            ),
        )
    } else if first_receiver(func.inputs@, func.inputs@.len() as int) is Some {
        Err(
            diag(
                first_receiver(func.inputs@, func.inputs@.len() as int)->0,
                "#[differentiable] functions must be free functions (no `self`)"@,
            ),
        )
    } else {
        match func.output {
            None => Err(diag(func.ident_span, "#[differentiable] functions must return a tensor"@)),
            Some(ty) => if is_unit(ty) {
                Err(diag(ty->Tuple_span, "#[differentiable] functions must return a tensor, not ()"@))
            } else {
                Ok(())
            },
        }
    }
}

/// Checks that an annotated function can be differentiated at all: a plain, synchronous
/// free function with inputs and a result.
pub fn check_signature(func: &FnSyntax) -> (r: Result<(), MacroError>)
    ensures
        diag_result(r) == spec_check_signature(func),
{
    if let Some(s) = func.asyncness {
        return Err(macro_error(s, "#[differentiable] functions cannot be async"));
    }
    if let Some(s) = func.constness {
        return Err(macro_error(s, "#[differentiable] functions cannot be const"));
    }
    if let Some(s) = func.variadic {
        return Err(macro_error(s, "#[differentiable] functions cannot be variadic"));
    }
    if func.inputs.len() == 0 {
        return Err(
            macro_error(
                func.ident_span,
                "#[differentiable] functions must take at least one tensor input",
            ),
        );
    }
    let mut i: usize = 0;
    while i < func.inputs.len()
        invariant
            i <= func.inputs@.len(),
            func.asyncness is None,
            func.constness is None,
            func.variadic is None,
            func.inputs@.len() > 0,
            first_receiver(func.inputs@, i as int) is None,
        decreases func.inputs@.len() - i,
    {
        if let FnInput::Receiver { span } = &func.inputs[i] {
            assert(first_receiver(func.inputs@, i + 1) == Some(*span));
            proof {
                lemma_first_receiver_sticks(func.inputs@, i + 1, func.inputs@.len() as int);
            }
            return Err(
                macro_error(*span, "#[differentiable] functions must be free functions (no `self`)"),
            );
        }
        i = i + 1;
    }
    match &func.output {
        None => Err(macro_error(func.ident_span, "#[differentiable] functions must return a tensor")),
        Some(ty) => match ty {
            TypeSyntax::Tuple { len, span } => if *len == 0 {
                Err(macro_error(*span, "#[differentiable] functions must return a tensor, not ()"))
            } else {
                Ok(())
            },
            _ => Ok(()),
        },
    }
}

/// Once a receiver is found among the first inputs, it stays the first one found.
proof fn lemma_first_receiver_sticks(inputs: Seq<FnInput>, k: int, m: int)
    requires
        0 <= k <= m,
        first_receiver(inputs, k) is Some,
    ensures
        first_receiver(inputs, m) == first_receiver(inputs, k),
    decreases m - k,
{
    if k < m {
        lemma_first_receiver_sticks(inputs, k, m - 1);
    }
}

} // verus!
